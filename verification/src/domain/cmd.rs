//! Command patterns: the coarse identity of a shell command, by which
//! approvals are recorded and found again.

use crate::text;
use vstd::prelude::*;

verus! {

/// The words of a command line as a POSIX shell would split it; `None` where
/// the line ends inside a quotation or after a lone backslash.
pub uninterp spec fn shell_words(line: Seq<char>) -> Option<Seq<Seq<char>>>;

/// Splits a command line into words with `shlex::split`. The contract only
/// names the outcome: the same line always gives the same words.
#[verifier::external_body]
pub(crate) fn split_words(line: &str) -> (words: Option<Vec<String>>)
    ensures
        words_of(words) == shell_words(line@),
{
    shlex::split(line)
}

/// The words of a command that was split, as contracts see them.
pub open spec fn words_of(words: Option<Vec<String>>) -> Option<Seq<Seq<char>>> {
    match words {
        Some(w) => Some(text::views(w@)),
        None => None,
    }
}

/// The identity of a command: its binary and, where it was recorded with
/// one, its first argument.
#[derive(Debug)]
pub struct CmdPattern {
    pub binary: String,
    pub first_arg: Option<String>,
}

/// What a [`CmdPattern`] is in contracts.
pub struct CmdPatternModel {
    pub binary: Seq<char>,
    pub first_arg: Option<Seq<char>>,
}

impl View for CmdPattern {
    type V = CmdPatternModel;

    open spec fn view(&self) -> CmdPatternModel {
        CmdPatternModel { binary: self.binary@, first_arg: text::opt_view(self.first_arg) }
    }
}

/// The pattern of a command that splits into `words`: the first word as the
/// binary and the second, where there is one, as the first argument. A
/// command without words has no pattern.
pub open spec fn pattern_of(words: Option<Seq<Seq<char>>>) -> Option<CmdPatternModel> {
    match words {
        Some(w) => if w.len() == 0 {
            None
        } else {
            Some(
                CmdPatternModel {
                    binary: w[0],
                    first_arg: if w.len() > 1 {
                        Some(w[1])
                    } else {
                        None
                    },
                },
            )
        },
        None => None,
    }
}

/// The lines of a list of patterns: each pattern on a line of its own,
/// behind a dash.
pub open spec fn pattern_lines(patterns: Seq<CmdPatternModel>) -> Seq<char>
    decreases patterns.len(),
{
    if patterns.len() == 0 {
        Seq::<char>::empty()
    } else {
        pattern_lines(patterns.drop_last()) + "\n  - "@ + patterns.last().shown()
    }
}

impl CmdPatternModel {
    /// The pattern as it is listed: the binary, the first argument where
    /// there is one, and `.*` for the rest.
    pub open spec fn shown(self) -> Seq<char> {
        match self.first_arg {
            Some(a) => self.binary + " "@ + a + " .*"@,
            None => self.binary + " .*"@,
        }
    }

    /// Whether the pattern covers a command that splits into `words`. The
    /// binary must be the first word. A pattern without a first argument
    /// then covers the command whatever follows; one with a first argument
    /// covers it only where the second word is that argument.
    pub open spec fn covers(self, words: Option<Seq<Seq<char>>>) -> bool {
        &&& words matches Some(w)
        &&& w.len() > 0
        &&& w[0] == self.binary
        &&& self.first_arg matches Some(a) ==> w.len() > 1 && w[1] == a
    }
}

impl CmdPattern {
    /// The pattern with this binary and first argument.
    pub fn new(binary: String, first_arg: Option<String>) -> (p: CmdPattern)
        ensures
            p.binary == binary,
            p.first_arg == first_arg,
    {
        CmdPattern { binary, first_arg }
    }

    /// The pattern of a command that was split into `words`; the error where
    /// the command could not be split or has no words.
    pub fn from_words(words: &Option<Vec<String>>) -> (r: Result<CmdPattern, &'static str>)
        ensures
            match r {
                Ok(p) => pattern_of(words_of(*words)) == Some(p@),
                Err(e) => pattern_of(words_of(*words)) is None && e@ == "command is empty"@,
            },
    {
        match words {
            Some(w) => {
                if w.len() == 0 {
                    Err("command is empty")
                } else {
                    let first_arg = if w.len() > 1 {
                        Some(w[1].clone())
                    } else {
                        None
                    };
                    Ok(CmdPattern { binary: w[0].clone(), first_arg })
                }
            },
            None => Err("command is empty"),
        }
    }

    /// The pattern of the command line `s`: the first word that a shell
    /// would see in it and, where there is one, the second. A line that a
    /// shell could not split, or that holds no word, is refused.
    pub fn from_str(s: &str) -> (r: Result<CmdPattern, &'static str>)
        ensures
            match r {
                Ok(p) => pattern_of(shell_words(s@)) == Some(p@),
                Err(e) => pattern_of(shell_words(s@)) is None && e@ == "command is empty"@,
            },
    {
        let words = split_words(s);
        CmdPattern::from_words(&words)
    }

    /// Whether the pattern covers a command that was split into `words`.
    pub fn covers_words(&self, words: &Option<Vec<String>>) -> (b: bool)
        ensures
            b == self@.covers(words_of(*words)),
    {
        match words {
            Some(w) => {
                if w.len() == 0 {
                    return false;
                }
                if !text::str_eq(w[0].as_str(), self.binary.as_str()) {
                    return false;
                }
                match &self.first_arg {
                    Some(a) => w.len() > 1 && text::str_eq(w[1].as_str(), a.as_str()),
                    None => true,
                }
            },
            None => false,
        }
    }

    /// Whether the pattern covers the command line `cmd`.
    pub fn matches(&self, cmd: &str) -> (b: bool)
        ensures
            b == self@.covers(shell_words(cmd@)),
    {
        let words = split_words(cmd);
        self.covers_words(&words)
    }

    /// Whether two patterns are the same.
    pub fn same(&self, other: &CmdPattern) -> (b: bool)
        ensures
            b == (self@ == other@),
    {
        if !text::str_eq(self.binary.as_str(), other.binary.as_str()) {
            return false;
        }
        match (&self.first_arg, &other.first_arg) {
            (Some(a), Some(b)) => text::str_eq(a.as_str(), b.as_str()),
            (None, None) => true,
            _ => false,
        }
    }

    /// A copy of the pattern.
    pub fn duplicate(&self) -> (copy: CmdPattern)
        ensures
            copy@ == self@,
    {
        CmdPattern { binary: self.binary.clone(), first_arg: text::cloned_opt(&self.first_arg) }
    }

    /// The pattern as it is listed: the binary, the first argument where
    /// there is one, and `.*` for the rest.
    pub fn display(&self) -> (s: String)
        ensures
            s@ == self@.shown(),
    {
        match &self.first_arg {
            Some(a) => {
                let head = text::concat3(self.binary.as_str(), " ", a.as_str());
                text::concat(head.as_str(), " .*")
            },
            None => text::concat(self.binary.as_str(), " .*"),
        }
    }
}

/// The patterns of `v` as contracts see them, in order.
pub open spec fn pattern_models(v: Seq<CmdPattern>) -> Seq<CmdPatternModel> {
    v.map_values(|p: CmdPattern| p@)
}

/// The commands that the user has approved for good: a set of patterns.
#[derive(Debug)]
pub struct ApprovedCmds {
    /// The patterns, each once, in the order in which they were approved.
    patterns: Vec<CmdPattern>,
}

impl View for ApprovedCmds {
    type V = Set<CmdPatternModel>;

    closed spec fn view(&self) -> Set<CmdPatternModel> {
        pattern_models(self.patterns@).to_set()
    }
}

impl ApprovedCmds {
    /// No pattern is recorded twice.
    #[verifier::type_invariant]
    closed spec fn distinct(self) -> bool {
        pattern_models(self.patterns@).no_duplicates()
    }

    /// The patterns in the order in which they were approved, each once.
    pub closed spec fn listed(self) -> Seq<CmdPatternModel> {
        pattern_models(self.patterns@)
    }

    /// Whether some approved pattern covers a command that splits into
    /// `words`.
    pub open spec fn approves(self, words: Option<Seq<Seq<char>>>) -> bool {
        exists|p: CmdPatternModel| self@.contains(p) && p.covers(words)
    }

    /// What is written out when the approvals are saved, and read back when
    /// they are loaded, holds the same set of patterns: the list names every
    /// approved pattern, and nothing else.
    pub proof fn lemma_listed_is_what_is_approved(self)
        ensures
            self.listed().to_set() == self@,
            forall|p: CmdPatternModel| self.listed().contains(p) <==> self@.contains(p),
    {
    }

    /// Nothing approved yet.
    pub fn new() -> (a: ApprovedCmds)
        ensures
            a@ == Set::<CmdPatternModel>::empty(),
    {
        let a = ApprovedCmds { patterns: Vec::new() };
        assert(pattern_models(a.patterns@).to_set() =~= Set::<CmdPatternModel>::empty());
        a
    }

    /// Whether `pattern` is among the approved ones.
    pub fn contains(&self, pattern: &CmdPattern) -> (b: bool)
        ensures
            b == self@.contains(pattern@),
    {
        let mut i: usize = 0;
        while i < self.patterns.len()
            invariant
                i <= self.patterns.len(),
                forall|j: int| 0 <= j < i ==> pattern_models(self.patterns@)[j] != pattern@,
            decreases self.patterns.len() - i,
        {
            assert(pattern_models(self.patterns@)[i as int] == self.patterns@[i as int]@);
            if self.patterns[i].same(pattern) {
                assert(pattern_models(self.patterns@).contains(pattern@));
                return true;
            }
            i += 1;
        }
        false
    }

    /// Whether the command line `cmd` has been approved: some recorded
    /// pattern covers it. A pattern recorded without a first argument covers
    /// every call of its binary; one recorded with a first argument covers
    /// only the calls that share it.
    pub fn is_approved(&self, cmd: &str) -> (b: bool)
        ensures
            b == self.approves(shell_words(cmd@)),
    {
        let words = split_words(cmd);
        self.approves_words(&words)
    }

    /// Whether some approved pattern covers a command that was split into
    /// `words`.
    pub fn approves_words(&self, words: &Option<Vec<String>>) -> (b: bool)
        ensures
            b == self.approves(words_of(*words)),
    {
        let ghost seen = words_of(*words);
        let mut i: usize = 0;
        while i < self.patterns.len()
            invariant
                i <= self.patterns.len(),
                seen == words_of(*words),
                forall|j: int| 0 <= j < i ==> !pattern_models(self.patterns@)[j].covers(seen),
            decreases self.patterns.len() - i,
        {
            assert(pattern_models(self.patterns@)[i as int] == self.patterns@[i as int]@);
            if self.patterns[i].covers_words(words) {
                assert(pattern_models(self.patterns@).contains(self.patterns@[i as int]@));
                return true;
            }
            i += 1;
        }
        false
    }

    /// Records `pattern` as approved. A pattern that is recorded already
    /// stays once.
    pub fn insert(&mut self, pattern: &CmdPattern)
        ensures
            final(self)@ == old(self)@.insert(pattern@),
    {
        proof {
            use_type_invariant(&*self);
        }
        if self.contains(pattern) {
            assert(self@.insert(pattern@) =~= self@);
            return;
        }
        let ghost before = pattern_models(self.patterns@);
        let mut list = self.patterns();
        list.push(pattern.duplicate());
        proof {
            assert(pattern_models(list@) =~= before.push(pattern@));
            lemma_push_to_set(before, pattern@);
        }
        self.patterns = list;
    }

    /// How many patterns are approved.
    pub fn len(&self) -> (n: usize)
        ensures
            n == self.listed().len(),
            n == self@.len(),
            self@.finite(),
            self.listed().no_duplicates(),
    {
        proof {
            use_type_invariant(self);
            self.listed().unique_seq_to_set();
            vstd::seq_lib::seq_to_set_is_finite(self.listed());
        }
        self.patterns.len()
    }

    /// The approved patterns, each once, in the order in which they were
    /// approved: what is written out when the approvals are saved.
    pub fn patterns(&self) -> (list: Vec<CmdPattern>)
        ensures
            pattern_models(list@) == self.listed(),
            pattern_models(list@).to_set() == self@,
            pattern_models(list@).no_duplicates(),
    {
        proof {
            use_type_invariant(self);
        }
        let mut list: Vec<CmdPattern> = Vec::new();
        let mut i: usize = 0;
        while i < self.patterns.len()
            invariant
                i <= self.patterns.len(),
                pattern_models(list@) == pattern_models(self.patterns@).take(i as int),
            decreases self.patterns.len() - i,
        {
            let ghost before = pattern_models(list@);
            list.push(self.patterns[i].duplicate());
            assert(pattern_models(list@) =~= before.push(self.patterns@[i as int]@));
            assert(pattern_models(self.patterns@).take(i + 1) =~= pattern_models(
                self.patterns@,
            ).take(i as int).push(self.patterns@[i as int]@));
            i += 1;
        }
        assert(pattern_models(self.patterns@).take(self.patterns.len() as int) == pattern_models(
            self.patterns@,
        ));
        list
    }

    /// The approvals that hold the patterns of `list`: what is built when
    /// saved approvals are loaded. A pattern that the list holds more than
    /// once is taken once.
    pub fn from_patterns(list: &Vec<CmdPattern>) -> (a: ApprovedCmds)
        ensures
            a@ == pattern_models(list@).to_set(),
    {
        let mut a = ApprovedCmds::new();
        let mut i: usize = 0;
        assert(pattern_models(list@).take(0).to_set() =~= Set::<CmdPatternModel>::empty());
        while i < list.len()
            invariant
                i <= list.len(),
                a@ == pattern_models(list@).take(i as int).to_set(),
            decreases list.len() - i,
        {
            let ghost done = pattern_models(list@).take(i as int);
            let ghost next = pattern_models(list@).take(i + 1);
            a.insert(&list[i]);
            proof {
                assert(next =~= done.push(list@[i as int]@));
                lemma_push_to_set(done, list@[i as int]@);
            }
            i += 1;
        }
        assert(pattern_models(list@).take(list.len() as int) == pattern_models(list@));
        a
    }

    /// The approved patterns as they are listed: `none` where there is
    /// none, else one line for each in the order in which they were
    /// approved, every line started by a dash.
    pub fn display(&self) -> (s: String)
        ensures
            s@ == if self.listed().len() == 0 {
                "none"@
            } else {
                pattern_lines(self.listed())
            },
    {
        if self.patterns.len() == 0 {
            return text::owned("none");
        }
        let mut s = String::new();
        let mut i: usize = 0;
        assert(pattern_models(self.patterns@).take(0) =~= Seq::<CmdPatternModel>::empty());
        while i < self.patterns.len()
            invariant
                i <= self.patterns.len(),
                s@ == pattern_lines(pattern_models(self.patterns@).take(i as int)),
            decreases self.patterns.len() - i,
        {
            let ghost done = pattern_models(self.patterns@).take(i as int);
            let ghost next = pattern_models(self.patterns@).take(i + 1);
            assert(next.drop_last() =~= done);
            assert(next.last() == self.patterns@[i as int]@);
            let line = self.patterns[i].display();
            s = text::concat3(s.as_str(), "\n  - ", line.as_str());
            i += 1;
        }
        assert(pattern_models(self.patterns@).take(self.patterns.len() as int) =~= pattern_models(
            self.patterns@,
        ));
        s
    }

    /// A copy of the approvals: what comes back when they are saved and
    /// loaded again.
    pub fn duplicate(&self) -> (copy: ApprovedCmds)
        ensures
            copy@ == self@,
    {
        ApprovedCmds::from_patterns(&self.patterns())
    }
}

/// The set of a sequence with one more item at its end is the set of the
/// sequence with that item added.
pub proof fn lemma_push_to_set<A>(s: Seq<A>, a: A)
    ensures
        s.push(a).to_set() == s.to_set().insert(a),
{
    assert forall|p: A| #[trigger]
        s.push(a).to_set().contains(p) <==> s.to_set().insert(a).contains(p) by {
        if s.push(a).contains(p) {
            let k = choose|k: int| 0 <= k < s.push(a).len() && s.push(a)[k] == p;
            if k < s.len() {
                assert(s[k] == p);
            }
        }
        if s.contains(p) {
            let k = choose|k: int| 0 <= k < s.len() && s[k] == p;
            assert(s.push(a)[k] == p);
        }
        if p == a {
            assert(s.push(a)[s.len() as int] == p);
        }
    }
    assert(s.push(a).to_set() =~= s.to_set().insert(a));
}

} // verus!
