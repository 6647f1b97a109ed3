//! The TCB advisory document, and the rule that turns the security versions
//! of a platform into a trust status.

use vstd::prelude::*;

verus! {

/// The security version that a TCB level asks of one CPU component.
#[derive(Clone, Copy, Debug)]
pub struct TcbComponent {
    pub svn: u8,
}

/// The security versions that a TCB level asks for.
#[derive(Clone, Debug)]
pub struct Tcb {
    /// One entry for each CPU component, in the order of the platform's own
    /// security versions.
    pub components: Vec<TcbComponent>,
    pub pce_svn: u16,
}

/// One level of the advisory document: what it asks for, and what a platform
/// that meets it is worth.
#[derive(Clone, Debug)]
pub struct TcbLevel {
    pub tcb: Tcb,
    pub tcb_status: String,
    pub advisory_ids: Vec<String>,
}

/// The advisory document of one platform model.
#[derive(Clone, Debug)]
pub struct TcbInfo {
    /// The platform identifier, in hexadecimal.
    pub fmspc: String,
    /// When the document goes stale, as an RFC 3339 timestamp.
    pub next_update: String,
    /// The levels, in the order of the document.
    pub tcb_levels: Vec<TcbLevel>,
}

pub ghost struct TcbView {
    pub components: Seq<u8>,
    pub pce_svn: u16,
}

pub ghost struct TcbLevelView {
    pub tcb: TcbView,
    pub tcb_status: Seq<char>,
    pub advisory_ids: Seq<Seq<char>>,
}

pub ghost struct TcbInfoView {
    pub fmspc: Seq<char>,
    pub next_update: Seq<char>,
    pub tcb_levels: Seq<TcbLevelView>,
}

/// The texts of a sequence of strings.
pub open spec fn spec_strings(v: Seq<String>) -> Seq<Seq<char>> {
    Seq::new(v.len(), |i: int| v[i]@)
}

/// The security versions of a sequence of components.
pub open spec fn spec_svns(v: Seq<TcbComponent>) -> Seq<u8> {
    Seq::new(v.len(), |i: int| v[i].svn)
}

/// The views of a sequence of levels.
pub open spec fn spec_levels(v: Seq<TcbLevel>) -> Seq<TcbLevelView> {
    Seq::new(v.len(), |i: int| v[i]@)
}

impl View for Tcb {
    type V = TcbView;

    open spec fn view(&self) -> TcbView {
        TcbView { components: spec_svns(self.components@), pce_svn: self.pce_svn }
    }
}

impl View for TcbLevel {
    type V = TcbLevelView;

    open spec fn view(&self) -> TcbLevelView {
        TcbLevelView {
            tcb: self.tcb@,
            tcb_status: self.tcb_status@,
            advisory_ids: spec_strings(self.advisory_ids@),
        }
    }
}

impl View for TcbInfo {
    type V = TcbInfoView;

    open spec fn view(&self) -> TcbInfoView {
        TcbInfoView {
            fmspc: self.fmspc@,
            next_update: self.next_update@,
            tcb_levels: spec_levels(self.tcb_levels@),
        }
    }
}

impl TcbInfoView {
    /// Every level names a security version for each of the 16 CPU
    /// components.
    pub open spec fn wf(self) -> bool {
        forall|i: int|
            0 <= i < self.tcb_levels.len() ==> (#[trigger] self.tcb_levels[i]).tcb.components.len()
                == 16
    }
}

impl TcbInfo {
    /// Whether every level names a security version for each of the 16 CPU
    /// components.
    pub fn is_well_formed(&self) -> (r: bool)
        ensures
            r == self@.wf(),
    {
        let mut i: usize = 0;
        while i < self.tcb_levels.len()
            invariant
                i <= self.tcb_levels@.len(),
                forall|j: int| 0 <= j < i ==> (#[trigger] self@.tcb_levels[j]).tcb.components.len() == 16,
            decreases self.tcb_levels@.len() - i,
        {
            if self.tcb_levels[i].tcb.components.len() != 16 {
                assert(self@.tcb_levels[i as int].tcb.components.len() != 16);
                return false;
            }
            i = i + 1;
        }
        true
    }
}

/// Whether a platform with the security versions `cpu_svn` and `pce_svn`
/// meets a level: the PCE is at least as new as asked, and so is every CPU
/// component, taken position by position.
pub open spec fn spec_level_matches(cpu_svn: Seq<u8>, pce_svn: u16, level: TcbLevelView) -> bool {
    &&& pce_svn >= level.tcb.pce_svn
    &&& forall|i: int|
        0 <= i < cpu_svn.len() && i < level.tcb.components.len() ==> cpu_svn[i]
            >= level.tcb.components[i]
}

/// The index of the first level from `from` on that the platform meets.
pub open spec fn spec_first_match(
    cpu_svn: Seq<u8>,
    pce_svn: u16,
    levels: Seq<TcbLevelView>,
    from: int,
) -> Option<int>
    decreases levels.len() - from,
{
    if from < 0 || from >= levels.len() {
        None
    } else if spec_level_matches(cpu_svn, pce_svn, levels[from]) {
        Some(from)
    } else {
        spec_first_match(cpu_svn, pce_svn, levels, from + 1)
    }
}

/// Status and advisories of a platform: those of the first level, in the
/// order of the document, that the platform meets; "Unknown" and no advisory
/// where it meets none.
pub open spec fn spec_tcb_verdict(cpu_svn: Seq<u8>, pce_svn: u16, levels: Seq<TcbLevelView>) -> (
    Seq<char>,
    Seq<Seq<char>>,
) {
    match spec_first_match(cpu_svn, pce_svn, levels, 0) {
        Some(k) => (levels[k].tcb_status, levels[k].advisory_ids),
        None => ("Unknown"@, Seq::empty()),
    }
}

/// What the search from `from` on finds is a level that the platform meets,
/// and the platform meets none between `from` and it; where the search finds
/// nothing, the platform meets no level from `from` on.
pub proof fn lemma_first_match(
    cpu_svn: Seq<u8>,
    pce_svn: u16,
    levels: Seq<TcbLevelView>,
    from: int,
)
    requires
        0 <= from,
    ensures
        match spec_first_match(cpu_svn, pce_svn, levels, from) {
            Some(k) => {
                &&& from <= k < levels.len()
                &&& spec_level_matches(cpu_svn, pce_svn, levels[k])
                &&& forall|j: int| from <= j < k ==> !spec_level_matches(cpu_svn, pce_svn, levels[j])
            },
            None => forall|j: int|
                from <= j < levels.len() ==> !spec_level_matches(cpu_svn, pce_svn, levels[j]),
        },
    decreases levels.len() - from,
{
    if from < levels.len() && !spec_level_matches(cpu_svn, pce_svn, levels[from]) {
        lemma_first_match(cpu_svn, pce_svn, levels, from + 1);
    }
}

/// The level that decides is the first one in the order of the document that
/// the platform meets: where the platform meets level `k` and none before
/// it, status and advisories are those of level `k`, whatever the levels
/// behind it say.
pub proof fn law_first_matching_level_decides(
    cpu_svn: Seq<u8>,
    pce_svn: u16,
    levels: Seq<TcbLevelView>,
    k: int,
)
    requires
        0 <= k < levels.len(),
        spec_level_matches(cpu_svn, pce_svn, levels[k]),
        forall|j: int| 0 <= j < k ==> !spec_level_matches(cpu_svn, pce_svn, levels[j]),
    ensures
        spec_tcb_verdict(cpu_svn, pce_svn, levels) == (
            levels[k].tcb_status,
            levels[k].advisory_ids,
        ),
{
    lemma_first_match(cpu_svn, pce_svn, levels, 0);
}

/// Where the platform meets no level, the status is "Unknown" and there is
/// no advisory. This is a result, not a failure.
pub proof fn law_no_matching_level_is_unknown(
    cpu_svn: Seq<u8>,
    pce_svn: u16,
    levels: Seq<TcbLevelView>,
)
    requires
        forall|j: int| 0 <= j < levels.len() ==> !spec_level_matches(cpu_svn, pce_svn, levels[j]),
    ensures
        spec_tcb_verdict(cpu_svn, pce_svn, levels) == ("Unknown"@, Seq::<Seq<char>>::empty()),
{
    lemma_first_match(cpu_svn, pce_svn, levels, 0);
}

/// Whether the platform meets a level.
pub fn level_matches(cpu_svn: &[u8; 16], pce_svn: u16, level: &TcbLevel) -> (r: bool)
    ensures
        r == spec_level_matches(cpu_svn@, pce_svn, level@),
{
    if pce_svn < level.tcb.pce_svn {
        return false;
    }
    let n: usize = level.tcb.components.len();
    let mut i: usize = 0;
    while i < 16 && i < n
        invariant
            i <= 16,
            i <= n == level.tcb.components@.len(),
            forall|j: int| 0 <= j < i ==> cpu_svn@[j] >= level@.tcb.components[j],
        decreases 16 - i,
    {
        if cpu_svn[i] < level.tcb.components[i].svn {
            assert(cpu_svn@[i as int] < level@.tcb.components[i as int]);
            return false;
        }
        i = i + 1;
    }
    true
}

/// A copy of a list of strings.
fn clone_strings(v: &Vec<String>) -> (r: Vec<String>)
    ensures
        spec_strings(r@) == spec_strings(v@),
{
    let mut out: Vec<String> = Vec::new();
    let mut i: usize = 0;
    while i < v.len()
        invariant
            i <= v@.len(),
            out@.len() == i,
            forall|j: int| 0 <= j < i ==> out@[j]@ == v@[j]@,
        decreases v@.len() - i,
    {
        out.push(v[i].clone());
        i = i + 1;
    }
    assert(spec_strings(out@) =~= spec_strings(v@));
    out
}

/// Turns the security versions of a platform into its trust status and the
/// advisories that apply to it.
///
/// The levels are tried in the order in which they stand. The first level
/// that the platform meets decides. Where it meets none, the status is
/// "Unknown" and no advisory is given.
pub fn match_tcb_levels(cpu_svn: &[u8; 16], pce_svn: u16, levels: &Vec<TcbLevel>) -> (r: (
    String,
    Vec<String>,
))
    ensures
        (r.0@, spec_strings(r.1@)) == spec_tcb_verdict(cpu_svn@, pce_svn, spec_levels(levels@)),
{
    let ghost all = spec_levels(levels@);
    let mut i: usize = 0;
    while i < levels.len()
        invariant
            i <= levels@.len(),
            all == spec_levels(levels@),
            spec_first_match(cpu_svn@, pce_svn, all, 0) == spec_first_match(
                cpu_svn@,
                pce_svn,
                all,
                i as int,
            ),
        decreases levels@.len() - i,
    {
        if level_matches(cpu_svn, pce_svn, &levels[i]) {
            let status: String = levels[i].tcb_status.clone();
            let advisories: Vec<String> = clone_strings(&levels[i].advisory_ids);
            return (status, advisories);
        }
        i = i + 1;
    }
    let advisories: Vec<String> = Vec::new();
    assert(spec_strings(advisories@) =~= Seq::<Seq<char>>::empty());
    ("Unknown".to_owned(), advisories)
}

} // verus!
