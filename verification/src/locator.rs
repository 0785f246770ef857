//! Device discovery: selecting at most one candidate path from a snapshot of
//! the host's device namespace.
//!
//! The host side lists three directories (a vendor stable-symlink directory,
//! a by-identity stable-symlink directory, and the flat device directory)
//! and checks which paths exist; the core picks the candidate with a fixed
//! priority, first match wins:
//!
//! 1. the explicitly configured path, if it exists;
//! 2. the first existing vendor-prefixed stable symlink;
//! 3. the first existing by-identity stable symlink;
//! 4. the lexicographically smallest flat entry matching either of the two
//!    USB-serial naming patterns.
//!
//! Selection is a pure function of the snapshot: no side effects, idempotent.

use vstd::prelude::*;
use vstd::string::StrSliceExecFns;
use crate::config::SerialConfig;
use crate::opt_string_view;

verus! {

/// One directory entry as the host reported it: the full path, the bare file
/// name, and whether the path still existed when it was checked.
pub struct DirEntry {
    pub path: String,
    pub name: String,
    pub exists: bool,
}

/// A snapshot of the parts of the host's device namespace that discovery
/// reads. A directory that could not be read is represented by an empty
/// entry list.
pub struct DeviceNamespace {
    /// Whether the explicitly configured path, if any, currently exists.
    pub configured_exists: bool,
    /// Entries of the vendor stable-symlink directory, in encounter order.
    pub vendor_entries: Vec<DirEntry>,
    /// Entries of the by-identity stable-symlink directory, in encounter
    /// order.
    pub by_id_entries: Vec<DirEntry>,
    /// Entries of the flat device directory, in encounter order.
    pub dev_entries: Vec<DirEntry>,
}

/// Whether an entry's name carries the vendor prefix that identifies this
/// robot family's stable symlinks.
pub open spec fn is_vendor_entry(e: DirEntry) -> bool {
    "by-irobot-"@.is_prefix_of(e.name@)
}

/// Whether an entry's name matches either of the two known USB-serial naming
/// patterns of the flat device directory.
pub open spec fn is_flat_match(e: DirEntry) -> bool {
    "ttyUSB"@.is_prefix_of(e.name@) || "ttyACM"@.is_prefix_of(e.name@)
}

/// The first entry, in encounter order, that carries the vendor prefix and
/// still exists.
pub open spec fn first_vendor(entries: Seq<DirEntry>) -> Option<DirEntry>
    decreases entries.len(),
{
    if entries.len() == 0 {
        None
    } else if is_vendor_entry(entries[0]) && entries[0].exists {
        Some(entries[0])
    } else {
        first_vendor(entries.drop_first())
    }
}

/// The first entry, in encounter order, that still exists.
pub open spec fn first_existing(entries: Seq<DirEntry>) -> Option<DirEntry>
    decreases entries.len(),
{
    if entries.len() == 0 {
        None
    } else if entries[0].exists {
        Some(entries[0])
    } else {
        first_existing(entries.drop_first())
    }
}

/// Strict lexicographic order on character sequences, by code point.
pub open spec fn lex_lt(a: Seq<char>, b: Seq<char>) -> bool
    decreases a.len(),
{
    if b.len() == 0 {
        false
    } else if a.len() == 0 {
        true
    } else if a[0] == b[0] {
        lex_lt(a.drop_first(), b.drop_first())
    } else {
        a[0] < b[0]
    }
}

/// Reflexive lexicographic order on character sequences.
pub open spec fn lex_leq(a: Seq<char>, b: Seq<char>) -> bool {
    lex_lt(a, b) || a == b
}

/// The lexicographically smallest path among the flat-directory entries
/// whose names match the USB-serial patterns, if any match.
pub open spec fn flat_min(entries: Seq<DirEntry>) -> Option<Seq<char>>
    decreases entries.len(),
{
    if entries.len() == 0 {
        None
    } else {
        let prior = flat_min(entries.drop_last());
        let e = entries.last();
        if !is_flat_match(e) {
            prior
        } else {
            match prior {
                None => Some(e.path@),
                Some(m) => if lex_lt(e.path@, m) {
                    Some(e.path@)
                } else {
                    Some(m)
                },
            }
        }
    }
}

/// Whether priority tier 1 applies: a path is configured and exists.
pub open spec fn configured_hit(cfg: SerialConfig, ns: DeviceNamespace) -> bool {
    cfg.path is Some && ns.configured_exists
}

/// The candidate discovery selects from a namespace snapshot, by the fixed
/// priority order.
pub open spec fn locate_spec(cfg: SerialConfig, ns: DeviceNamespace) -> Option<Seq<char>> {
    if configured_hit(cfg, ns) {
        Some(cfg.path->0@)
    } else if first_vendor(ns.vendor_entries@) is Some {
        Some(first_vendor(ns.vendor_entries@)->0.path@)
    } else if first_existing(ns.by_id_entries@) is Some {
        Some(first_existing(ns.by_id_entries@)->0.path@)
    } else {
        flat_min(ns.dev_entries@)
    }
}

/// The lexicographic order is total: any two character sequences are
/// ordered, one way or the other, unless they are equal.
pub proof fn lemma_lex_total(a: Seq<char>, b: Seq<char>)
    ensures
        lex_lt(a, b) || lex_lt(b, a) || a == b,
    decreases a.len(),
{
    if b.len() == 0 {
        if a.len() == 0 {
            assert(a =~= b);
        }
    } else if a.len() == 0 {
    } else if a[0] == b[0] {
        lemma_lex_total(a.drop_first(), b.drop_first());
        if a.drop_first() == b.drop_first() {
            assert(a.drop_first().len() == a.len() - 1);
            assert(b.drop_first().len() == b.len() - 1);
            assert(a.len() == b.len());
            assert forall|i: int| 0 <= i < a.len() implies a[i] == b[i] by {
                if i >= 1 {
                    assert(a[i] == a.drop_first()[i - 1]);
                    assert(b[i] == b.drop_first()[i - 1]);
                }
            }
            assert(a =~= b);
        }
    }
}

/// The lexicographic order is transitive.
pub proof fn lemma_lex_lt_trans(a: Seq<char>, b: Seq<char>, c: Seq<char>)
    requires
        lex_lt(a, b),
        lex_lt(b, c),
    ensures
        lex_lt(a, c),
    decreases a.len(),
{
    if a.len() == 0 {
    } else if a[0] == b[0] {
        if b[0] == c[0] {
            lemma_lex_lt_trans(a.drop_first(), b.drop_first(), c.drop_first());
        }
    }
}

/// The flat-directory fallback is sound and minimal: its result, when there
/// is one, is the path of some matching entry and is lexicographically no
/// greater than every matching entry's path; there is no result exactly when
/// no entry matches.
pub proof fn lemma_flat_min_is_least(entries: Seq<DirEntry>)
    ensures
        match flat_min(entries) {
            Some(m) => {
                &&& exists|i: int|
                    0 <= i < entries.len() && is_flat_match(entries[i]) && entries[i].path@ == m
                &&& forall|i: int|
                    0 <= i < entries.len() && is_flat_match(entries[i])
                        ==> lex_leq(m, entries[i].path@)
            },
            None => forall|i: int| 0 <= i < entries.len() ==> !is_flat_match(entries[i]),
        },
    decreases entries.len(),
{
    if entries.len() == 0 {
    } else {
        let prefix = entries.drop_last();
        let e = entries.last();
        lemma_flat_min_is_least(prefix);
        assert(forall|i: int| 0 <= i < prefix.len() ==> entries[i] == prefix[i]);
        match flat_min(entries) {
            Some(m) => {
                if is_flat_match(e) {
                    match flat_min(prefix) {
                        None => {
                            assert(entries[entries.len() - 1].path@ == m);
                        },
                        Some(p) => {
                            if lex_lt(e.path@, p) {
                                assert(m == e.path@);
                                assert forall|i: int|
                                    0 <= i < entries.len() && is_flat_match(entries[i])
                                        implies lex_leq(m, entries[i].path@) by {
                                    if i < entries.len() - 1 {
                                        if lex_lt(p, entries[i].path@) {
                                            lemma_lex_lt_trans(m, p, entries[i].path@);
                                        }
                                    }
                                }
                            } else {
                                assert(m == p);
                                lemma_lex_total(e.path@, p);
                            }
                        },
                    }
                }
            },
            None => {},
        }
    }
}

/// Priority tier 1 dominates: whenever an explicit path is configured and
/// currently exists, discovery returns it, regardless of what else the
/// namespace holds.
pub proof fn lemma_configured_path_wins(cfg: SerialConfig, ns: DeviceNamespace)
    requires
        cfg.path is Some,
        ns.configured_exists,
    ensures
        locate_spec(cfg, ns) == Some(cfg.path->0@),
{
}

/// Vendor symlinks outrank everything but the configured path: with no
/// tier-1 hit, an existing vendor-prefixed entry is returned in preference
/// to by-identity symlinks and flat entries.
pub proof fn lemma_vendor_symlink_precedence(cfg: SerialConfig, ns: DeviceNamespace)
    requires
        !configured_hit(cfg, ns),
        first_vendor(ns.vendor_entries@) is Some,
    ensures
        locate_spec(cfg, ns) == Some(first_vendor(ns.vendor_entries@)->0.path@),
{
}

/// With no match in any higher tier, discovery returns the lexicographically
/// smallest flat-directory entry matching the USB-serial naming patterns,
/// and returns nothing exactly when no flat entry matches.
pub proof fn lemma_flat_fallback_least(cfg: SerialConfig, ns: DeviceNamespace)
    requires
        !configured_hit(cfg, ns),
        first_vendor(ns.vendor_entries@) is None,
        first_existing(ns.by_id_entries@) is None,
    ensures
        locate_spec(cfg, ns) == flat_min(ns.dev_entries@),
        match locate_spec(cfg, ns) {
            Some(m) => {
                &&& exists|i: int|
                    0 <= i < ns.dev_entries@.len() && is_flat_match(ns.dev_entries@[i])
                        && ns.dev_entries@[i].path@ == m
                &&& forall|i: int|
                    0 <= i < ns.dev_entries@.len() && is_flat_match(ns.dev_entries@[i])
                        ==> lex_leq(m, ns.dev_entries@[i].path@)
            },
            None => forall|i: int|
                0 <= i < ns.dev_entries@.len() ==> !is_flat_match(ns.dev_entries@[i]),
        },
{
    lemma_flat_min_is_least(ns.dev_entries@);
}

/// Whether `p` is a prefix of `s`, character by character.
pub fn str_starts_with(s: &str, p: &str) -> (r: bool)
    ensures
        r == p@.is_prefix_of(s@),
{
    let n = p.unicode_len();
    let m = s.unicode_len();
    if n > m {
        return false;
    }
    let mut i: usize = 0;
    while i < n
        invariant
            i <= n,
            n == p@.len(),
            n <= m == s@.len(),
            forall|j: int| 0 <= j < i ==> s@[j] == p@[j],
        decreases n - i,
    {
        if s.get_char(i) != p.get_char(i) {
            return false;
        }
        i = i + 1;
    }
    proof {
        assert(p@ =~= s@.subrange(0, n as int));
    }
    true
}

/// Strict lexicographic comparison of two strings, by code point.
pub fn str_lt(a: &str, b: &str) -> (r: bool)
    ensures
        r == lex_lt(a@, b@),
{
    let an = a.unicode_len();
    let bn = b.unicode_len();
    let mut i: usize = 0;
    proof {
        assert(a@.skip(0) =~= a@);
        assert(b@.skip(0) =~= b@);
    }
    while i < an && i < bn
        invariant
            i <= an == a@.len(),
            i <= bn == b@.len(),
            lex_lt(a@, b@) == lex_lt(a@.skip(i as int), b@.skip(i as int)),
        decreases an - i,
    {
        let ca = a.get_char(i);
        let cb = b.get_char(i);
        if ca != cb {
            proof {
                assert(a@.skip(i as int)[0] == ca);
                assert(b@.skip(i as int)[0] == cb);
            }
            return ca < cb;
        }
        proof {
            assert(a@.skip(i as int).drop_first() =~= a@.skip(i + 1));
            assert(b@.skip(i as int).drop_first() =~= b@.skip(i + 1));
        }
        i = i + 1;
    }
    proof {
        assert(a@.skip(i as int).len() == 0 || b@.skip(i as int).len() == 0);
    }
    an < bn
}

/// Scans the snapshot in priority order and returns at most one candidate
/// path, exactly as [`locate_spec`] selects it.
pub fn pick_serial_port(cfg: &SerialConfig, ns: &DeviceNamespace) -> (r: Option<String>)
    ensures
        opt_string_view(r) == locate_spec(*cfg, *ns),
{
    // Tier 1: the explicitly configured path, if it exists.
    if let Some(p) = &cfg.path {
        if ns.configured_exists {
            return Some(p.clone());
        }
    }

    // Tier 2: the first existing vendor-prefixed stable symlink.
    let mut i: usize = 0;
    proof {
        assert(ns.vendor_entries@.skip(0) =~= ns.vendor_entries@);
    }
    while i < ns.vendor_entries.len()
        invariant
            i <= ns.vendor_entries@.len(),
            !configured_hit(*cfg, *ns),
            first_vendor(ns.vendor_entries@) == first_vendor(ns.vendor_entries@.skip(i as int)),
        decreases ns.vendor_entries@.len() - i,
    {
        let e = &ns.vendor_entries[i];
        proof {
            assert(ns.vendor_entries@.skip(i as int)[0] == ns.vendor_entries@[i as int]);
            assert(ns.vendor_entries@.skip(i as int).drop_first()
                =~= ns.vendor_entries@.skip(i + 1));
        }
        if str_starts_with(e.name.as_str(), "by-irobot-") && e.exists {
            proof {
                assert(first_vendor(ns.vendor_entries@.skip(i as int))
                    == Some(ns.vendor_entries@[i as int]));
            }
            return Some(e.path.clone());
        }
        i = i + 1;
    }

    // Tier 3: the first existing by-identity stable symlink.
    let mut i: usize = 0;
    proof {
        assert(ns.by_id_entries@.skip(0) =~= ns.by_id_entries@);
    }
    while i < ns.by_id_entries.len()
        invariant
            i <= ns.by_id_entries@.len(),
            !configured_hit(*cfg, *ns),
            first_vendor(ns.vendor_entries@) is None,
            first_existing(ns.by_id_entries@)
                == first_existing(ns.by_id_entries@.skip(i as int)),
        decreases ns.by_id_entries@.len() - i,
    {
        let e = &ns.by_id_entries[i];
        proof {
            assert(ns.by_id_entries@.skip(i as int)[0] == ns.by_id_entries@[i as int]);
            assert(ns.by_id_entries@.skip(i as int).drop_first()
                =~= ns.by_id_entries@.skip(i + 1));
        }
        if e.exists {
            proof {
                assert(first_existing(ns.by_id_entries@.skip(i as int))
                    == Some(ns.by_id_entries@[i as int]));
            }
            return Some(e.path.clone());
        }
        i = i + 1;
    }

    // Tier 4: the smallest flat entry matching the USB-serial patterns.
    let mut best: Option<String> = None;
    let mut i: usize = 0;
    while i < ns.dev_entries.len()
        invariant
            i <= ns.dev_entries@.len(),
            opt_string_view(best) == flat_min(ns.dev_entries@.take(i as int)),
        decreases ns.dev_entries@.len() - i,
    {
        let e = &ns.dev_entries[i];
        proof {
            assert(ns.dev_entries@.take(i + 1).drop_last() =~= ns.dev_entries@.take(i as int));
            assert(ns.dev_entries@.take(i + 1).last() == ns.dev_entries@[i as int]);
        }
        if str_starts_with(e.name.as_str(), "ttyUSB")
            || str_starts_with(e.name.as_str(), "ttyACM") {
            let replace = match &best {
                None => true,
                Some(m) => str_lt(e.path.as_str(), m.as_str()),
            };
            if replace {
                best = Some(e.path.clone());
            }
        }
        i = i + 1;
    }
    proof {
        assert(ns.dev_entries@.take(ns.dev_entries@.len() as int) =~= ns.dev_entries@);
    }
    best
}

} // verus!
