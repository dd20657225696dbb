use vstd::prelude::*;

verus! {

/// Remembers which log file the first initialisation chose. Every later
/// request is turned away, whatever path it names.
pub struct InitGate {
    installed: Option<String>,
}

/// The file path chosen after one more request for `path`.
pub open spec fn after_claim(state: Option<Seq<char>>, path: Seq<char>) -> Option<Seq<char>> {
    match state {
        None => Some(path),
        Some(p) => Some(p),
    }
}

/// The file path chosen after requests for each of `paths`, in order.
pub open spec fn after_claims(state: Option<Seq<char>>, paths: Seq<Seq<char>>) -> Option<
    Seq<char>,
>
    decreases paths.len(),
{
    if paths.len() == 0 {
        state
    } else {
        after_claims(after_claim(state, paths[0]), paths.drop_first())
    }
}

impl View for InitGate {
    type V = Option<Seq<char>>;

    closed spec fn view(&self) -> Option<Seq<char>> {
        match self.installed {
            None => None,
            Some(p) => Some(p@),
        }
    }
}

impl InitGate {
    /// A gate with no path chosen yet.
    pub fn new() -> (g: InitGate)
        ensures
            g@ == None::<Seq<char>>,
    {
        InitGate { installed: None }
    }

    /// Asks to initialise with `path`. Returns true, and records `path`, only
    /// for the first request; later ones leave the recorded path as it is.
    pub fn claim(&mut self, path: &str) -> (first: bool)
        ensures
            first == old(self)@ is None,
            final(self)@ == after_claim(old(self)@, path@),
    {
        if self.installed.is_some() {
            false
        } else {
            self.installed = Some(String::from_str(path));
            true
        }
    }

    /// Whether a path has been chosen.
    pub fn is_installed(&self) -> (r: bool)
        ensures
            r == self@ is Some,
    {
        self.installed.is_some()
    }

    /// The path that the first request named, if any.
    pub fn installed_path(&self) -> (r: Option<&str>)
        ensures
            r matches Some(p) ==> self@ == Some(p@),
            r is None ==> self@ is None,
    {
        match &self.installed {
            None => None,
            Some(p) => Some(p.as_str()),
        }
    }
}

/// However many requests follow, and whatever paths they name, the path of
/// the first request is the one in force; a path once chosen never changes.
pub proof fn lemma_first_path_wins(state: Option<Seq<char>>, paths: Seq<Seq<char>>)
    requires
        paths.len() >= 1 || state is Some,
    ensures
        state is Some ==> after_claims(state, paths) == state,
        state is None ==> after_claims(state, paths) == Some(paths[0]),
    decreases paths.len(),
{
    if paths.len() > 0 {
        let next = after_claim(state, paths[0]);
        lemma_first_path_wins(next, paths.drop_first());
    }
}

} // verus!
