//! The state shared by the commands: the ATM folder and whether a test
//! sequence is running.

use vstd::prelude::*;

verus! {

broadcast use vstd::string::group_string_axioms;

/// The application state. The front end holds one value of it behind a lock.
pub struct AppState {
    pub atm_path: String,
    pub running: bool,
}

pub struct AppStateView {
    pub atm_path: Seq<char>,
    pub running: bool,
}

impl View for AppState {
    type V = AppStateView;

    open spec fn view(&self) -> AppStateView {
        AppStateView { atm_path: self.atm_path@, running: self.running }
    }
}

/// The state after a folder was offered; `valid` says whether it holds the
/// ATM tools. An invalid folder leaves the state as it was.
pub open spec fn with_path(s: AppStateView, path: Seq<char>, valid: bool) -> AppStateView {
    if valid {
        AppStateView { atm_path: path, ..s }
    } else {
        s
    }
}

/// Why a new test sequence is refused, if it is.
pub open spec fn start_refusal(s: AppStateView) -> Option<Seq<char>> {
    if s.atm_path.len() == 0 {
        Some("ATM path not set"@)
    } else if s.running {
        Some("Tests already running"@)
    } else {
        None
    }
}

/// The state after a request to start a test sequence.
pub open spec fn after_start(s: AppStateView) -> AppStateView {
    if start_refusal(s) is None {
        AppStateView { running: true, ..s }
    } else {
        s
    }
}

/// The state after a sequence ended or was stopped.
pub open spec fn after_stop(s: AppStateView) -> AppStateView {
    AppStateView { running: false, ..s }
}

impl Default for AppState {
    fn default() -> (s: AppState)
        ensures
            s@.atm_path == Seq::<char>::empty(),
            !s@.running,
    {
        AppState { atm_path: String::new(), running: false }
    }
}

impl AppState {
    /// The ATM folder; empty while none was set.
    pub fn get_atm_path(&self) -> (p: String)
        ensures
            p@ == self@.atm_path,
    {
        self.atm_path.clone()
    }

    /// Offers a folder; `valid` is whether it holds `ATM_v5.jar` or
    /// `TestInfo.xml`. Keeps it only if valid, and returns `valid`.
    pub fn set_atm_path(&mut self, path: String, valid: bool) -> (r: bool)
        ensures
            r == valid,
            final(self)@ == with_path(old(self)@, path@, valid),
    {
        if valid {
            self.atm_path = path;
        }
        valid
    }

    /// The ATM folder, or `None` while none is set.
    pub fn configured_folder(&self) -> (r: Option<String>)
        ensures
            r is None == (self@.atm_path.len() == 0),
            r matches Some(p) ==> p@ == self@.atm_path,
    {
        if self.atm_path.as_str().is_empty() {
            None
        } else {
            Some(self.atm_path.clone())
        }
    }

    pub fn is_running(&self) -> (r: bool)
        ensures
            r == self@.running,
    {
        self.running
    }

    /// Starts a test sequence: refused while no folder is set or while
    /// another sequence runs; otherwise marks the state running and returns
    /// the ATM folder.
    pub fn start_run(&mut self) -> (r: Result<String, String>)
        ensures
            final(self)@ == after_start(old(self)@),
            match r {
                Ok(p) => start_refusal(old(self)@) is None && p@ == old(self)@.atm_path,
                Err(e) => start_refusal(old(self)@) == Some(e@),
            },
    {
        if self.atm_path.as_str().is_empty() {
            return Err("ATM path not set".to_string());
        }
        if self.running {
            return Err("Tests already running".to_string());
        }
        self.running = true;
        Ok(self.atm_path.clone())
    }

    /// Marks the end of a sequence.
    pub fn finish_run(&mut self)
        ensures
            final(self)@ == after_stop(old(self)@),
    {
        self.running = false;
    }

    /// The stop command: clears the running mark.
    pub fn stop_tests(&mut self)
        ensures
            final(self)@ == after_stop(old(self)@),
    {
        self.running = false;
    }
}

/// A folder that was accepted is the folder read back; a refused one
/// changes nothing.
pub proof fn law_path_read_back(s: AppStateView, path: Seq<char>)
    ensures
        with_path(s, path, true).atm_path == path,
        with_path(s, path, false) == s,
{
}

/// Sequences never overlap: once one has started, the next request is
/// refused as already running until the state is stopped.
pub proof fn law_one_sequence_at_a_time(s: AppStateView)
    requires
        start_refusal(s) is None,
    ensures
        after_start(s).running,
        start_refusal(after_start(s)) == Some("Tests already running"@),
{
}

/// After a stop, a new sequence may start whenever a folder is set, and it
/// starts with the same folder.
pub proof fn law_stop_reopens(s: AppStateView)
    ensures
        (start_refusal(after_stop(s)) is None) == (s.atm_path.len() > 0),
        after_stop(s).atm_path == s.atm_path,
{
}

/// The state after a series of offered folders, each with whether it was
/// valid.
pub open spec fn after_offers(s: AppStateView, offers: Seq<(Seq<char>, bool)>) -> AppStateView
    decreases offers.len(),
{
    if offers.len() == 0 {
        s
    } else {
        with_path(after_offers(s, offers.drop_last()), offers.last().0, offers.last().1)
    }
}

/// After a series of offers, the folder read back is the last one accepted,
/// and the running mark is untouched.
pub proof fn law_last_accepted_is_read_back(
    s: AppStateView,
    offers: Seq<(Seq<char>, bool)>,
    k: int,
)
    requires
        0 <= k < offers.len(),
        offers[k].1,
        forall|j: int| k < j < offers.len() ==> !(#[trigger] offers[j]).1,
    ensures
        after_offers(s, offers).atm_path == offers[k].0,
        after_offers(s, offers).running == s.running,
    decreases offers.len(),
{
    if k < offers.len() - 1 {
        let init = offers.drop_last();
        assert forall|j: int| k < j < init.len() implies !(#[trigger] init[j]).1 by {
            assert(init[j] == offers[j]);
        }
        law_last_accepted_is_read_back(s, init, k);
        assert(!offers[offers.len() - 1].1);
    } else {
        lemma_running_untouched(s, offers.drop_last());
    }
}

/// Offers that are all refused change nothing.
pub proof fn law_refused_offers_change_nothing(s: AppStateView, offers: Seq<(Seq<char>, bool)>)
    requires
        forall|j: int| 0 <= j < offers.len() ==> !(#[trigger] offers[j]).1,
    ensures
        after_offers(s, offers) == s,
    decreases offers.len(),
{
    if offers.len() > 0 {
        let init = offers.drop_last();
        assert forall|j: int| 0 <= j < init.len() implies !(#[trigger] init[j]).1 by {
            assert(init[j] == offers[j]);
        }
        law_refused_offers_change_nothing(s, init);
        assert(!offers[offers.len() - 1].1);
    }
}

proof fn lemma_running_untouched(s: AppStateView, offers: Seq<(Seq<char>, bool)>)
    ensures
        after_offers(s, offers).running == s.running,
    decreases offers.len(),
{
    if offers.len() > 0 {
        lemma_running_untouched(s, offers.drop_last());
    }
}

} // verus!
