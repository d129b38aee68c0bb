//! Resolution of the currently selected egress node from a snapshot of
//! named proxy groups.
//!
//! A pass picks an anchor group (one whose name contains the preferred
//! label case-insensitively, else a group literally named `Proxy`, else
//! the `GLOBAL` pseudo-group) and then follows "currently selected
//! member" pointers for at most ten hops, so that a cyclic configuration
//! still terminates with a defined name.

use vstd::prelude::*;
use vstd::string::StringExecFns;

verus! {

/// The hard bound on indirection hops followed during one resolution.
pub const MAX_RESOLVE_HOPS: u64 = 10;

/// One named proxy group and its optional currently selected member.
pub struct ProxyGroup {
    pub name: String,
    pub now: Option<String>,
}

/// A read-only snapshot of the proxy groups for one resolution pass, in
/// the order the engine reported them.
pub struct ProxyGroupSnapshot {
    pub groups: Vec<ProxyGroup>,
}

/// The lower-cased form of a string, as `str::to_lowercase` computes it.
pub uninterp spec fn lower_of(s: Seq<char>) -> Seq<char>;

/// Relies on `str::to_lowercase`: the result is a function of the
/// characters alone.
#[verifier::external_body]
pub(crate) fn lowercase(s: &str) -> (r: String)
    ensures
        r@ == lower_of(s@),
{
    s.to_lowercase()
}

/// Whether `needle` occurs contiguously inside `hay`.
pub open spec fn spec_contains_seq(hay: Seq<char>, needle: Seq<char>) -> bool {
    exists|i: int|
        0 <= i && i + needle.len() <= hay.len() && #[trigger] hay.subrange(i, i + needle.len())
            == needle
}

/// Relies on `str::contains`: whether the second string occurs as a
/// contiguous substring of the first.
#[verifier::external_body]
pub(crate) fn str_contains(hay: &str, needle: &str) -> (r: bool)
    ensures
        r == spec_contains_seq(hay@, needle@),
{
    hay.contains(needle)
}

/// The first group in the snapshot carrying exactly this name.
pub open spec fn spec_lookup(groups: Seq<ProxyGroup>, name: Seq<char>) -> Option<ProxyGroup>
    decreases groups.len(),
{
    if groups.len() == 0 {
        None
    } else if groups[0].name@ == name {
        Some(groups[0])
    } else {
        spec_lookup(groups.drop_first(), name)
    }
}

/// The name of the first group whose lower-cased name contains the
/// lower-cased preferred label.
pub open spec fn spec_first_match(groups: Seq<ProxyGroup>, preferred: Seq<char>) -> Option<
    Seq<char>,
>
    decreases groups.len(),
{
    if groups.len() == 0 {
        None
    } else if spec_contains_seq(lower_of(groups[0].name@), lower_of(preferred)) {
        Some(groups[0].name@)
    } else {
        spec_first_match(groups.drop_first(), preferred)
    }
}

/// The anchor group name for a resolution pass: the first group matching
/// the preferred label, else `GLOBAL`; and where that left the default
/// anchor and a group named `Proxy` exists, `Proxy`.
pub open spec fn spec_anchor(groups: Seq<ProxyGroup>, preferred: Option<Seq<char>>) -> Seq<char> {
    let matched = if preferred is Some {
        spec_first_match(groups, preferred->0)
    } else {
        None
    };
    let base = if matched is Some {
        matched->0
    } else {
        "GLOBAL"@
    };
    if base == "GLOBAL"@ && spec_lookup(groups, "Proxy"@) is Some {
        "Proxy"@
    } else {
        base
    }
}

/// The name reached from `current` by following selected-member pointers
/// for at most `hops` hops, stopping early at a name that is not a group
/// or a group with no selection.
pub open spec fn spec_follow(groups: Seq<ProxyGroup>, current: Seq<char>, hops: nat) -> Seq<char>
    decreases hops,
{
    if hops == 0 {
        current
    } else {
        match spec_lookup(groups, current) {
            None => current,
            Some(g) => match g.now {
                None => current,
                Some(next) => spec_follow(groups, next@, (hops - 1) as nat),
            },
        }
    }
}

/// The fully resolved node name: empty when the anchor group is absent or
/// has no selection, otherwise its selection dereferenced for at most
/// `MAX_RESOLVE_HOPS` hops.
pub open spec fn spec_resolve(groups: Seq<ProxyGroup>, preferred: Option<Seq<char>>) -> Seq<
    char,
> {
    match spec_lookup(groups, spec_anchor(groups, preferred)) {
        None => Seq::empty(),
        Some(g) => match g.now {
            None => Seq::empty(),
            Some(first) => spec_follow(groups, first@, MAX_RESOLVE_HOPS as nat),
        },
    }
}

/// The view of an optional borrowed label.
pub open spec fn opt_label_view(p: Option<&String>) -> Option<Seq<char>> {
    match p {
        Some(s) => Some(s@),
        None => None,
    }
}

/// The index of the first group carrying exactly this name, if any.
fn lookup_index(groups: &Vec<ProxyGroup>, name: &String) -> (r: Option<usize>)
    ensures
        match r {
            Some(i) => i < groups@.len() && spec_lookup(groups@, name@) == Some(
                groups@[i as int],
            ),
            None => spec_lookup(groups@, name@) is None,
        },
{
    let n = groups.len();
    let mut i: usize = 0;
    proof {
        assert(groups@.subrange(0, n as int) =~= groups@);
    }
    while i < n
        invariant
            i <= n,
            n == groups@.len(),
            spec_lookup(groups@, name@) == spec_lookup(
                groups@.subrange(i as int, n as int),
                name@,
            ),
        ensures
            i <= n,
            n == groups@.len(),
            i < n ==> groups@[i as int].name@ == name@ && spec_lookup(groups@, name@) == Some(
                groups@[i as int],
            ),
            i == n ==> spec_lookup(groups@, name@) is None,
        decreases n - i,
    {
        proof {
            assert(groups@.subrange(i as int, n as int)[0] == groups@[i as int]);
        }
        if groups[i].name.eq(name) {
            break ;
        }
        proof {
            assert(groups@.subrange(i as int, n as int).drop_first() =~= groups@.subrange(
                i as int + 1,
                n as int,
            ));
        }
        i = i + 1;
    }
    if i < n {
        Some(i)
    } else {
        proof {
            assert(groups@.subrange(n as int, n as int) =~= Seq::<ProxyGroup>::empty());
        }
        None
    }
}

/// The name of the first group whose lower-cased name contains the
/// lower-cased preferred label, if any.
fn first_match(groups: &Vec<ProxyGroup>, preferred: &String) -> (r: Option<String>)
    ensures
        match r {
            Some(s) => spec_first_match(groups@, preferred@) == Some(s@),
            None => spec_first_match(groups@, preferred@) is None,
        },
{
    let preferred_low = lowercase(preferred.as_str());
    let n = groups.len();
    let mut i: usize = 0;
    let mut found: Option<String> = None;
    proof {
        assert(groups@.subrange(0, n as int) =~= groups@);
    }
    while i < n
        invariant_except_break
            found is None,
        invariant
            i <= n,
            n == groups@.len(),
            preferred_low@ == lower_of(preferred@),
            found is None ==> spec_first_match(groups@, preferred@) == spec_first_match(
                groups@.subrange(i as int, n as int),
                preferred@,
            ),
            found matches Some(s) ==> spec_first_match(groups@, preferred@) == Some(s@),
        ensures
            i == n || found is Some,
            found matches Some(s) ==> spec_first_match(groups@, preferred@) == Some(s@),
            found is None ==> spec_first_match(groups@, preferred@) == spec_first_match(
                groups@.subrange(i as int, n as int),
                preferred@,
            ),
        decreases n - i,
    {
        proof {
            assert(groups@.subrange(i as int, n as int)[0] == groups@[i as int]);
        }
        let name_low = lowercase(groups[i].name.as_str());
        if str_contains(name_low.as_str(), preferred_low.as_str()) {
            found = Some(groups[i].name.clone());
            break ;
        }
        proof {
            assert(groups@.subrange(i as int, n as int).drop_first() =~= groups@.subrange(
                i as int + 1,
                n as int,
            ));
        }
        i = i + 1;
    }
    proof {
        if found is None {
            assert(groups@.subrange(n as int, n as int) =~= Seq::<ProxyGroup>::empty());
        }
    }
    found
}

/// The anchor group name for this snapshot and preferred label.
fn find_anchor(groups: &Vec<ProxyGroup>, preferred: Option<&String>) -> (anchor: String)
    ensures
        anchor@ == spec_anchor(groups@, opt_label_view(preferred)),
{
    let matched = match preferred {
        Some(p) => first_match(groups, p),
        None => None,
    };
    let base = match matched {
        Some(name) => name,
        None => String::from_str("GLOBAL"),
    };
    let global = String::from_str("GLOBAL");
    if base.eq(&global) {
        let proxy = String::from_str("Proxy");
        if lookup_index(groups, &proxy).is_some() {
            return proxy;
        }
    }
    base
}

/// Resolve the currently selected egress node from a snapshot of proxy
/// groups and an optional preferred label; an empty name means no
/// selection was available, a valid outcome.
pub fn resolve_selected_node(snapshot: &ProxyGroupSnapshot, preferred: Option<&String>) -> (node:
    String)
    ensures
        node@ == spec_resolve(snapshot.groups@, opt_label_view(preferred)),
{
    let groups = &snapshot.groups;
    let anchor = find_anchor(groups, preferred);
    let gi = match lookup_index(groups, &anchor) {
        None => {
            return String::new();
        },
        Some(gi) => gi,
    };
    let first = match &groups[gi].now {
        None => {
            return String::new();
        },
        Some(first) => first,
    };
    let mut current: String = first.clone();
    let mut hops: u64 = 0;
    while hops < MAX_RESOLVE_HOPS
        invariant
            hops <= MAX_RESOLVE_HOPS,
            spec_resolve(snapshot.groups@, opt_label_view(preferred)) == spec_follow(
                groups@,
                current@,
                (MAX_RESOLVE_HOPS - hops) as nat,
            ),
        ensures
            spec_resolve(snapshot.groups@, opt_label_view(preferred)) == current@,
        decreases MAX_RESOLVE_HOPS - hops,
    {
        match lookup_index(groups, &current) {
            None => {
                break ;
            },
            Some(i) => {
                match &groups[i].now {
                    None => {
                        break ;
                    },
                    Some(next) => {
                        current = next.clone();
                    },
                }
            },
        }
        hops = hops + 1;
    }
    current
}

} // verus!
