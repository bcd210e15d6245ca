use vstd::prelude::*;
use vstd::string::StrSliceExecFns;

verus! {

/// Severity of one emitted event, from most verbose to most urgent.
#[derive(Clone, Copy, PartialEq, Eq, Structural, Debug)]
pub enum Severity {
    Trace,
    Debug,
    Info,
    Warn,
    Error,
}

/// The urgency rank of a severity: lower means more urgent, so an event
/// passes a threshold `t` exactly when its rank is at most the rank of `t`.
pub open spec fn spec_severity_rank(s: Severity) -> int {
    match s {
        Severity::Error => 1,
        Severity::Warn => 2,
        Severity::Info => 3,
        Severity::Debug => 4,
        Severity::Trace => 5,
    }
}

pub fn severity_rank(s: Severity) -> (r: u8)
    ensures
        r as int == spec_severity_rank(s),
{
    match s {
        Severity::Error => 1,
        Severity::Warn => 2,
        Severity::Info => 3,
        Severity::Debug => 4,
        Severity::Trace => 5,
    }
}

/// A per-component threshold: either fully silenced, or a minimum severity.
#[derive(Clone, Copy, PartialEq, Eq, Structural, Debug)]
pub enum LevelFilter {
    Off,
    Level(Severity),
}

/// Whether an event of severity `s` passes the threshold `f`.
pub open spec fn spec_filter_allows(f: LevelFilter, s: Severity) -> bool {
    match f {
        LevelFilter::Off => false,
        LevelFilter::Level(t) => spec_severity_rank(s) <= spec_severity_rank(t),
    }
}

/// Whether an override named `name` applies to events from component
/// `target`: either the names are equal, or `name` is a path prefix of
/// `target` (the next two characters of `target` are "::").
pub open spec fn spec_target_matches(name: Seq<char>, target: Seq<char>) -> bool {
    name =~= target || (name.len() + 2 <= target.len() && target.subrange(0, name.len() as int)
        =~= name && target[name.len() as int] == ':' && target[name.len() as int + 1] == ':')
}

fn chars_equal_prefix(name: &str, target: &str, n: usize) -> (r: bool)
    requires
        n <= name@.len(),
        n <= target@.len(),
    ensures
        r <==> name@.subrange(0, n as int) == target@.subrange(0, n as int),
{
    let mut i: usize = 0;
    while i < n
        invariant
            i <= n,
            n <= name@.len(),
            n <= target@.len(),
            forall|j: int| 0 <= j < i ==> name@[j] == target@[j],
        decreases n - i,
    {
        let a = name.get_char(i);
        let b = target.get_char(i);
        if a != b {
            proof {
                let ii = i as int;
                assert(name@.subrange(0, n as int)[ii] != target@.subrange(0, n as int)[ii]);
            }
            return false;
        }
        i = i + 1;
    }
    proof {
        assert(name@.subrange(0, n as int) =~= target@.subrange(0, n as int));
    }
    true
}

/// True exactly when the override named `name` covers component `target`.
pub fn target_matches(name: &str, target: &str) -> (r: bool)
    ensures
        r == spec_target_matches(name@, target@),
{
    let nlen = name.unicode_len();
    let tlen = target.unicode_len();
    if nlen == tlen {
        let eq = chars_equal_prefix(name, target, nlen);
        proof {
            if eq {
                assert(name@.subrange(0, nlen as int) =~= name@);
                assert(target@.subrange(0, tlen as int) =~= target@);
                assert(name@ =~= target@);
            } else {
                assert(!(name@ =~= target@)) by {
                    if name@ =~= target@ {
                        assert(name@.subrange(0, nlen as int) == target@.subrange(0, nlen as int));
                    }
                }
                assert(!spec_target_matches(name@, target@));
            }
        }
        eq
    } else if tlen >= 2 && nlen <= tlen - 2 {
        let pre = chars_equal_prefix(name, target, nlen);
        if !pre {
            proof {
                assert(name@.subrange(0, nlen as int) =~= name@);
                assert(!(name@ =~= target@)) by {
                    if name@ =~= target@ {
                        assert(name@.len() == target@.len());
                    }
                }
                assert(!spec_target_matches(name@, target@));
            }
            false
        } else {
            proof {
                assert(name@.subrange(0, nlen as int) =~= name@);
            }
            let c1 = target.get_char(nlen);
            let c2 = target.get_char(nlen + 1);
            c1 == ':' && c2 == ':'
        }
    } else {
        false
    }
}

/// One default threshold plus named per-component overrides, evaluated
/// before any sink sees an event.
pub struct FilterRules {
    pub default_level: LevelFilter,
    pub overrides: Vec<(String, LevelFilter)>,
}

/// Scans the overrides front to back carrying the best match so far; a later
/// override displaces the current best only with a strictly longer name, so
/// the most specific override wins and ties go to the earliest.
pub open spec fn spec_select_override(
    ovs: Seq<(String, LevelFilter)>,
    target: Seq<char>,
    best: Option<(String, LevelFilter)>,
) -> Option<(String, LevelFilter)>
    decreases ovs.len(),
{
    if ovs.len() == 0 {
        best
    } else {
        let hd = ovs[0];
        let better = match best {
            None => spec_target_matches(hd.0@, target),
            Some(b) => spec_target_matches(hd.0@, target) && hd.0@.len() > b.0@.len(),
        };
        spec_select_override(
            ovs.drop_first(),
            target,
            if better {
                Some(hd)
            } else {
                best
            },
        )
    }
}

/// The threshold that governs events from component `target`: the most
/// specific matching override, or the default when none matches.
pub open spec fn spec_effective_filter(rules: FilterRules, target: Seq<char>) -> LevelFilter {
    match spec_select_override(rules.overrides@, target, None) {
        Some(b) => b.1,
        None => rules.default_level,
    }
}

/// Whether an event from component `target` with severity `sev` passes the
/// filter.
pub open spec fn spec_enabled(rules: FilterRules, target: Seq<char>, sev: Severity) -> bool {
    spec_filter_allows(spec_effective_filter(rules, target), sev)
}

impl FilterRules {
    /// A rule set with the given default and no overrides yet.
    pub fn new(default_level: LevelFilter) -> (r: FilterRules)
        ensures
            r.default_level == default_level,
            r.overrides@.len() == 0,
    {
        FilterRules { default_level, overrides: Vec::new() }
    }

    /// Adds one named override, keeping those already present.
    pub fn with_target(self, name: String, level: LevelFilter) -> (r: FilterRules)
        ensures
            r.default_level == self.default_level,
            r.overrides@.len() == self.overrides@.len() + 1,
            forall|k: int| 0 <= k < self.overrides@.len() ==> r.overrides@[k] == self.overrides@[k],
            r.overrides@[self.overrides@.len() as int].0@ == name@,
            r.overrides@[self.overrides@.len() as int].1 == level,
    {
        let mut overrides = self.overrides;
        overrides.push((name, level));
        FilterRules { default_level: self.default_level, overrides }
    }

    /// The threshold for component `target`.
    pub fn effective_filter(&self, target: &str) -> (r: LevelFilter)
        ensures
            r == spec_effective_filter(*self, target@),
    {
        let ovs = &self.overrides;
        proof {
            assert(ovs@.skip(0) =~= ovs@);
        }
        let mut best: Option<(usize, usize)> = None;
        let mut i: usize = 0;
        while i < ovs.len()
            invariant
                i <= ovs@.len(),
                (match best {
                    None => spec_select_override(ovs@, target@, None) == spec_select_override(
                        ovs@.skip(i as int),
                        target@,
                        None,
                    ),
                    Some((bi, bl)) => bi < i && spec_target_matches(ovs@[bi as int].0@, target@)
                        && bl == ovs@[bi as int].0@.len() && spec_select_override(
                        ovs@,
                        target@,
                        None,
                    ) == spec_select_override(
                        ovs@.skip(i as int),
                        target@,
                        Some(ovs@[bi as int]),
                    ),
                }),
            decreases ovs@.len() - i,
        {
            let name: &String = &ovs[i].0;
            let m = target_matches(name.as_str(), target);
            let nlen = name.unicode_len();
            let better = match best {
                None => m,
                Some((_, bl)) => m && nlen > bl,
            };
            proof {
                assert(ovs@.skip(i as int)[0] == ovs@[i as int]);
                assert(ovs@.skip(i as int).drop_first() =~= ovs@.skip(i + 1));
            }
            if better {
                best = Some((i, nlen));
            }
            i = i + 1;
        }
        proof {
            assert(ovs@.skip(ovs@.len() as int) =~= Seq::<(String, LevelFilter)>::empty());
        }
        match best {
            None => self.default_level,
            Some((bi, _)) => self.overrides[bi].1,
        }
    }

    /// Whether an event from component `target` with severity `sev` passes.
    pub fn enabled(&self, target: &str, sev: Severity) -> (r: bool)
        ensures
            r == spec_enabled(*self, target@, sev),
    {
        let f = self.effective_filter(target);
        match f {
            LevelFilter::Off => false,
            LevelFilter::Level(t) => severity_rank(sev) <= severity_rank(t),
        }
    }
}

/// Under a rule set of {default: INFO, "app": DEBUG}, a DEBUG event passes
/// the filter exactly when it comes from the "app" component — "app" itself
/// or one of its submodules; a DEBUG event from any other component is
/// rejected, since the INFO default then governs it.
pub proof fn lemma_debug_gated_by_app_override(rules: FilterRules, target: Seq<char>)
    requires
        rules.default_level == LevelFilter::Level(Severity::Info),
        rules.overrides@.len() == 1,
        rules.overrides@[0].0@ == "app"@,
        rules.overrides@[0].1 == LevelFilter::Level(Severity::Debug),
    ensures
        spec_enabled(rules, target, Severity::Debug) == spec_target_matches("app"@, target),
{
    reveal_with_fuel(spec_select_override, 3);
    assert(rules.overrides@.drop_first().len() == 0);
}

/// When no override matches the component, the default threshold governs.
pub proof fn lemma_default_when_no_match(rules: FilterRules, target: Seq<char>)
    requires
        forall|k: int| 0 <= k < rules.overrides@.len() ==> !spec_target_matches(
            #[trigger] rules.overrides@[k].0@,
            target,
        ),
    ensures
        spec_effective_filter(rules, target) == rules.default_level,
{
    lemma_select_none(rules.overrides@, target);
}

proof fn lemma_select_none(ovs: Seq<(String, LevelFilter)>, target: Seq<char>)
    requires
        forall|k: int| 0 <= k < ovs.len() ==> !spec_target_matches(#[trigger] ovs[k].0@, target),
    ensures
        spec_select_override(ovs, target, None) is None,
    decreases ovs.len(),
{
    if ovs.len() > 0 {
        assert(ovs[0] == ovs.drop_first().push(ovs[0]).last());
        assert(forall|k: int| 0 <= k < ovs.drop_first().len() ==> ovs.drop_first()[k] == ovs[k + 1]);
        lemma_select_none(ovs.drop_first(), target);
    }
}

} // verus!
