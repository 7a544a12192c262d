//! Merging the distros `wsl.exe` lists with the metadata the registry holds.
//!
//! A registry entry belongs to the listed distro whose name matches it ignoring
//! ASCII case; when several registry entries share a name, the last one counts,
//! and only the first listed distro with that name receives it. Registry entries
//! that no listed distro claims are appended as installing distros, sorted by name.
use vstd::prelude::*;

use crate::model::{
    duplicate_opt_string, DistroInfo, DistroState, InstalledDistroSnapshot, RegisteredDistroMetadata,
};
use crate::text::{ascii_lower, chars_eq, chars_of, eq_ignore_ascii_case, to_ascii_lower_chars};

verus! {

broadcast use vstd::seq_lib::group_to_multiset_ensures;

/// The key under which distro names are matched.
pub open spec fn name_key(name: Seq<char>) -> Seq<char> {
    ascii_lower(name)
}

pub open spec fn cli_keys(cli: Seq<InstalledDistroSnapshot>) -> Seq<Seq<char>> {
    cli.map_values(|e: InstalledDistroSnapshot| name_key(e.name@))
}

pub open spec fn registry_keys(reg: Seq<RegisteredDistroMetadata>) -> Seq<Seq<char>> {
    reg.map_values(|e: RegisteredDistroMetadata| name_key(e.name@))
}

pub open spec fn key_views(keys: Seq<Vec<char>>) -> Seq<Seq<char>> {
    keys.map_values(|v: Vec<char>| v@)
}

/// The index of the last key equal to `k`, or `-1`.
pub open spec fn last_index_of(keys: Seq<Seq<char>>, k: Seq<char>) -> int
    decreases keys.len(),
{
    if keys.len() == 0 {
        -1
    } else if keys.last() == k {
        keys.len() - 1
    } else {
        last_index_of(keys.drop_last(), k)
    }
}

/// Some key before index `i` equals `k`.
pub open spec fn key_before(keys: Seq<Seq<char>>, i: int, k: Seq<char>) -> bool {
    exists|j: int| 0 <= j < i && keys[j] == k
}

/// The registry entry that the `i`-th listed distro receives, if any.
pub open spec fn registry_match(
    cli: Seq<InstalledDistroSnapshot>,
    reg: Seq<RegisteredDistroMetadata>,
    i: int,
) -> Option<RegisteredDistroMetadata> {
    let k = cli_keys(cli)[i];
    let j = last_index_of(registry_keys(reg), k);
    if !key_before(cli_keys(cli), i, k) && j >= 0 {
        Some(reg[j])
    } else {
        None
    }
}

/// The `j`-th registry entry counts for its name and no listed distro claims it.
pub open spec fn is_unclaimed(
    cli: Seq<InstalledDistroSnapshot>,
    reg: Seq<RegisteredDistroMetadata>,
    j: int,
) -> bool {
    let k = registry_keys(reg)[j];
    last_index_of(registry_keys(reg), k) == j && !key_before(cli_keys(cli), cli.len() as int, k)
}

/// The unclaimed registry entries among the first `n`, in registry order.
pub open spec fn unclaimed_upto(
    cli: Seq<InstalledDistroSnapshot>,
    reg: Seq<RegisteredDistroMetadata>,
    n: int,
) -> Seq<RegisteredDistroMetadata>
    decreases n,
{
    if n <= 0 {
        Seq::empty()
    } else {
        let prev = unclaimed_upto(cli, reg, n - 1);
        if is_unclaimed(cli, reg, n - 1) {
            prev.push(reg[n - 1])
        } else {
            prev
        }
    }
}

/// The unclaimed registry entries, in registry order.
pub open spec fn unclaimed(
    cli: Seq<InstalledDistroSnapshot>,
    reg: Seq<RegisteredDistroMetadata>,
) -> Seq<RegisteredDistroMetadata> {
    unclaimed_upto(cli, reg, reg.len() as int)
}

/// A listed distro completed with the registry entry it receives.
pub open spec fn merged_info(
    c: InstalledDistroSnapshot,
    m: Option<RegisteredDistroMetadata>,
) -> DistroInfo {
    DistroInfo {
        name: c.name,
        state: c.state,
        version: c.version,
        is_default: c.is_default,
        base_path: match m {
            Some(e) => e.base_path,
            None => None,
        },
        vhd_file_name: match m {
            Some(e) => e.vhd_file_name,
            None => None,
        },
        flavor: match m {
            Some(e) => e.flavor,
            None => None,
        },
        os_version: match m {
            Some(e) => e.os_version,
            None => None,
        },
        default_uid: match m {
            Some(e) => e.default_uid,
            None => None,
        },
    }
}

/// A registered distro that `wsl.exe` does not list yet: it is being installed.
pub open spec fn registry_only_info(e: RegisteredDistroMetadata) -> DistroInfo {
    DistroInfo {
        name: e.name,
        state: DistroState::Installing,
        version: e.version,
        is_default: false,
        base_path: e.base_path,
        vhd_file_name: e.vhd_file_name,
        flavor: e.flavor,
        os_version: e.os_version,
        default_uid: e.default_uid,
    }
}

/// Lexicographic order of character sequences by code point (the order of `String`).
pub open spec fn seq_lt(a: Seq<char>, b: Seq<char>) -> bool
    decreases a.len(),
{
    if a.len() == 0 {
        b.len() > 0
    } else if b.len() == 0 {
        false
    } else if a[0] != b[0] {
        (a[0] as u32) < (b[0] as u32)
    } else {
        seq_lt(a.drop_first(), b.drop_first())
    }
}

/// Names never decrease along the sequence.
pub open spec fn sorted_by_name(s: Seq<DistroInfo>) -> bool {
    forall|i: int, j: int|
        #![trigger s[i], s[j]]
        0 <= i < j < s.len() ==> !seq_lt(s[j].name@, s[i].name@)
}

proof fn lemma_seq_lt_transitive(a: Seq<char>, b: Seq<char>, c: Seq<char>)
    requires
        seq_lt(a, b),
        seq_lt(b, c),
    ensures
        seq_lt(a, c),
    decreases a.len(),
{
    if a.len() > 0 && b.len() > 0 && c.len() > 0 && a[0] == b[0] && b[0] == c[0] {
        lemma_seq_lt_transitive(a.drop_first(), b.drop_first(), c.drop_first());
    }
}

proof fn lemma_seq_lt_irreflexive(a: Seq<char>)
    ensures
        !seq_lt(a, a),
    decreases a.len(),
{
    if a.len() > 0 {
        lemma_seq_lt_irreflexive(a.drop_first());
    }
}

proof fn lemma_seq_lt_prefix(a: Seq<char>, b: Seq<char>)
    requires
        a.len() < b.len(),
        b.take(a.len() as int) == a,
    ensures
        seq_lt(a, b),
    decreases a.len(),
{
    if a.len() > 0 {
        assert(b[0] == b.take(a.len() as int)[0]);
        assert(b.drop_first().take(a.len() - 1) =~= a.drop_first()) by {
            assert forall|k: int| 0 <= k < a.len() - 1 implies #[trigger] b.drop_first().take(a.len() - 1)[k] == a.drop_first()[k] by {
                assert(b.take(a.len() as int)[k + 1] == b[k + 1]);
            }
        }
        lemma_seq_lt_prefix(a.drop_first(), b.drop_first());
    }
}

proof fn lemma_seq_lt_first_difference(a: Seq<char>, b: Seq<char>, i: int)
    requires
        0 <= i < a.len(),
        i < b.len(),
        a.take(i) == b.take(i),
        a[i] != b[i],
    ensures
        seq_lt(a, b) == ((a[i] as u32) < (b[i] as u32)),
    decreases i,
{
    if i > 0 {
        assert(a[0] == a.take(i)[0] && b[0] == b.take(i)[0]);
        assert(a.drop_first().take(i - 1) =~= b.drop_first().take(i - 1)) by {
            assert forall|k: int| 0 <= k < i - 1 implies #[trigger] a.drop_first().take(i - 1)[k] == b.drop_first().take(i - 1)[k] by {
                assert(a.take(i)[k + 1] == b.take(i)[k + 1]);
                assert(a.take(i)[k + 1] == a[k + 1] && b.take(i)[k + 1] == b[k + 1]);
                assert(a.drop_first().take(i - 1)[k] == a[k + 1]);
                assert(b.drop_first().take(i - 1)[k] == b[k + 1]);
            }
        }
        lemma_seq_lt_first_difference(a.drop_first(), b.drop_first(), i - 1);
    }
}

proof fn lemma_seq_lt_total(a: Seq<char>, b: Seq<char>)
    requires
        a != b,
    ensures
        seq_lt(a, b) || seq_lt(b, a),
    decreases a.len(),
{
    if a.len() > 0 && b.len() > 0 && a[0] == b[0] {
        if a.drop_first() == b.drop_first() {
            assert(a =~= seq![a[0]] + a.drop_first());
            assert(b =~= seq![b[0]] + b.drop_first());
        }
        lemma_seq_lt_total(a.drop_first(), b.drop_first());
    } else if a.len() == 0 && b.len() == 0 {
        assert(a =~= b);
    } else if a.len() > 0 && b.len() > 0 {
        let (x, y) = (a[0] as u32, b[0] as u32);
        assert(x != y) by {
            vstd::utf8::char_u32_cast(a[0], x);
            vstd::utf8::char_u32_cast(b[0], y);
        }
    }
}

/// Distro names are ordered as `String` orders them: by the code point of the
/// first character where they differ, a proper prefix (the empty name included)
/// before every longer name it begins, and of two different names exactly one
/// before the other.
pub proof fn lemma_name_order_is_string_order(a: Seq<char>, b: Seq<char>, i: int)
    ensures
        a.len() < b.len() && b.take(a.len() as int) == a ==> seq_lt(a, b) && !seq_lt(b, a),
        a.len() == 0 && b.len() > 0 ==> seq_lt(a, b),
        0 <= i < a.len() && i < b.len() && a.take(i) == b.take(i) && a[i] != b[i] ==> seq_lt(a, b) == ((
        a[i] as u32) < (b[i] as u32)),
        !seq_lt(a, a),
        seq_lt(a, b) ==> !seq_lt(b, a),
        a != b ==> seq_lt(a, b) || seq_lt(b, a),
{
    lemma_seq_lt_irreflexive(a);
    if a.len() < b.len() && b.take(a.len() as int) == a {
        lemma_seq_lt_prefix(a, b);
    }
    if a.len() == 0 && b.len() > 0 {
        assert(b.take(0) =~= a);
        lemma_seq_lt_prefix(a, b);
    }
    if 0 <= i < a.len() && i < b.len() && a.take(i) == b.take(i) && a[i] != b[i] {
        lemma_seq_lt_first_difference(a, b, i);
    }
    if seq_lt(a, b) && seq_lt(b, a) {
        lemma_seq_lt_transitive(a, b, a);
    }
    if a != b {
        lemma_seq_lt_total(a, b);
    }
}

/// Whether `a` sorts strictly before `b`.
pub fn name_lt(a: &String, b: &String) -> (r: bool)
    ensures
        r == seq_lt(a@, b@),
{
    let va = chars_of(a.as_str());
    let vb = chars_of(b.as_str());
    let mut i: usize = 0;
    assert(va@.skip(0) =~= va@);
    assert(vb@.skip(0) =~= vb@);
    while i < va.len() && i < vb.len() && va[i] == vb[i]
        invariant
            i <= va.len(),
            i <= vb.len(),
            seq_lt(va@, vb@) == seq_lt(va@.skip(i as int), vb@.skip(i as int)),
        decreases va.len() - i,
    {
        assert(va@.skip(i as int).drop_first() =~= va@.skip(i + 1));
        assert(vb@.skip(i as int).drop_first() =~= vb@.skip(i + 1));
        i += 1;
    }
    if i == va.len() {
        i < vb.len()
    } else if i == vb.len() {
        false
    } else {
        (va[i] as u32) < (vb[i] as u32)
    }
}

/// The key of a distro name.
pub fn key_chars(name: &String) -> (v: Vec<char>)
    ensures
        v@ == name_key(name@),
{
    to_ascii_lower_chars(&chars_of(name.as_str()))
}

proof fn lemma_last_index_take(keys: Seq<Seq<char>>, k: Seq<char>, j: int)
    requires
        0 <= j <= keys.len(),
        forall|m: int| j <= m < keys.len() ==> keys[m] != k,
    ensures
        last_index_of(keys, k) == last_index_of(keys.take(j), k),
    decreases keys.len() - j,
{
    if j < keys.len() {
        lemma_last_index_take(keys, k, j + 1);
        assert(keys.take(j + 1).drop_last() =~= keys.take(j));
    } else {
        assert(keys.take(j) =~= keys);
    }
}

proof fn lemma_last_index_bounds(keys: Seq<Seq<char>>, k: Seq<char>)
    ensures
        -1 <= last_index_of(keys, k) < keys.len(),
        last_index_of(keys, k) >= 0 ==> keys[last_index_of(keys, k)] == k,
    decreases keys.len(),
{
    if keys.len() > 0 && keys.last() != k {
        lemma_last_index_bounds(keys.drop_last(), k);
    }
}

/// Registry metadata reaches a listed distro by name, ignoring ASCII case: the
/// first listed distro with a name receives the last registry entry whose name
/// equals it up to ASCII case, and a listed distro that no registry name equals
/// up to ASCII case receives nothing.
pub proof fn lemma_match_ignores_ascii_case(
    cli: Seq<InstalledDistroSnapshot>,
    reg: Seq<RegisteredDistroMetadata>,
    i: int,
    j: int,
)
    requires
        0 <= i < cli.len(),
    ensures
        0 <= j < reg.len() && eq_ignore_ascii_case(cli[i].name@, reg[j].name@) && (forall|l: int|
            j < l < reg.len() ==> !eq_ignore_ascii_case(cli[i].name@, #[trigger] reg[l].name@)) && (forall|m: int|
            0 <= m < i ==> !eq_ignore_ascii_case(#[trigger] cli[m].name@, cli[i].name@)) ==> registry_match(
            cli,
            reg,
            i,
        ) == Some(reg[j]),
        (forall|l: int| 0 <= l < reg.len() ==> !eq_ignore_ascii_case(cli[i].name@, #[trigger] reg[l].name@))
            ==> registry_match(cli, reg, i) is None,
{
    let rk = registry_keys(reg);
    let ck = cli_keys(cli);
    let k = ck[i];
    if 0 <= j < reg.len() && eq_ignore_ascii_case(cli[i].name@, reg[j].name@) && (forall|l: int|
        j < l < reg.len() ==> !eq_ignore_ascii_case(cli[i].name@, #[trigger] reg[l].name@)) && (forall|m: int|
        0 <= m < i ==> !eq_ignore_ascii_case(#[trigger] cli[m].name@, cli[i].name@)) {
        assert forall|l: int| j + 1 <= l < rk.len() implies rk[l] != k by {
            assert(rk[l] == name_key(reg[l].name@));
            assert(!eq_ignore_ascii_case(cli[i].name@, reg[l].name@));
        }
        lemma_last_index_take(rk, k, j + 1);
        assert(rk.take(j + 1).last() == rk[j]);
        if key_before(ck, i, k) {
            let m = choose|m: int| 0 <= m < i && ck[m] == k;
            assert(ck[m] == name_key(cli[m].name@));
            assert(!eq_ignore_ascii_case(cli[m].name@, cli[i].name@));
        }
    }
    if forall|l: int| 0 <= l < reg.len() ==> !eq_ignore_ascii_case(cli[i].name@, #[trigger] reg[l].name@) {
        lemma_last_index_bounds(rk, k);
        if last_index_of(rk, k) >= 0 {
            let l: int = last_index_of(rk, k);
            assert(rk[l] == name_key(reg[l].name@));
            assert(!eq_ignore_ascii_case(cli[i].name@, reg[l].name@));
        }
    }
}

proof fn lemma_first_occurrence(keys: Seq<Seq<char>>, k: Seq<char>, n: int)
    requires
        key_before(keys, n, k),
    ensures
        exists|m: int| 0 <= m < n && keys[m] == k && !key_before(keys, m, k),
    decreases n,
{
    if key_before(keys, n - 1, k) {
        lemma_first_occurrence(keys, k, n - 1);
        let m = choose|m: int| 0 <= m < n - 1 && keys[m] == k && !key_before(keys, m, k);
        assert(0 <= m < n && keys[m] == k && !key_before(keys, m, k));
    } else {
        let m0 = choose|m: int| 0 <= m < n && keys[m] == k;
        assert(m0 == n - 1);
        assert(0 <= n - 1 < n && keys[n - 1] == k && !key_before(keys, n - 1, k));
    }
}

proof fn lemma_unclaimed_upto_contains(
    cli: Seq<InstalledDistroSnapshot>,
    reg: Seq<RegisteredDistroMetadata>,
    n: int,
    j: int,
)
    requires
        0 <= j < n <= reg.len(),
        is_unclaimed(cli, reg, j),
    ensures
        unclaimed_upto(cli, reg, n).contains(reg[j]),
    decreases n,
{
    if j < n - 1 {
        lemma_unclaimed_upto_contains(cli, reg, n - 1, j);
        let prev = unclaimed_upto(cli, reg, n - 1);
        let w = choose|w: int| 0 <= w < prev.len() && prev[w] == reg[j];
        if is_unclaimed(cli, reg, n - 1) {
            assert(prev.push(reg[n - 1])[w] == reg[j]);
        }
    } else {
        let prev = unclaimed_upto(cli, reg, n - 1);
        assert(prev.push(reg[j])[prev.len() as int] == reg[j]);
    }
}

/// No registry entry that counts for its name is lost: the first listed distro
/// with that name (ignoring ASCII case) receives it, or it is among the entries
/// appended as installing.
pub proof fn lemma_registry_entries_kept(
    cli: Seq<InstalledDistroSnapshot>,
    reg: Seq<RegisteredDistroMetadata>,
    j: int,
)
    requires
        0 <= j < reg.len(),
        last_index_of(registry_keys(reg), registry_keys(reg)[j]) == j,
    ensures
        (exists|i: int| 0 <= i < cli.len() && #[trigger] registry_match(cli, reg, i) == Some(reg[j]))
            || unclaimed(cli, reg).contains(reg[j]),
{
    let rk = registry_keys(reg);
    let ck = cli_keys(cli);
    let k = rk[j];
    if key_before(ck, cli.len() as int, k) {
        lemma_first_occurrence(ck, k, cli.len() as int);
        let m = choose|m: int| 0 <= m < cli.len() && ck[m] == k && !key_before(ck, m, k);
        assert(registry_match(cli, reg, m) == Some(reg[j]));
    } else {
        lemma_unclaimed_upto_contains(cli, reg, reg.len() as int, j);
    }
}

/// The index of the last key equal to `k`.
pub fn find_last_key(keys: &Vec<Vec<char>>, k: &Vec<char>) -> (r: Option<usize>)
    ensures
        match r {
            Some(j) => j == last_index_of(key_views(keys@), k@),
            None => last_index_of(key_views(keys@), k@) == -1,
        },
{
    let ghost kv = key_views(keys@);
    let mut j: usize = keys.len();
    while j > 0
        invariant
            j <= keys.len(),
            kv == key_views(keys@),
            forall|m: int| j <= m < keys.len() ==> kv[m] != k@,
        decreases j,
    {
        if chars_eq(&keys[j - 1], k) {
            proof {
                lemma_last_index_take(kv, k@, j as int);
                assert(kv.take(j as int).last() == kv[j - 1]);
            }
            return Some(j - 1);
        }
        j -= 1;
    }
    proof {
        lemma_last_index_take(kv, k@, 0);
    }
    None
}

/// Whether one of the first `n` keys equals `k`.
pub fn key_among_first(keys: &Vec<Vec<char>>, n: usize, k: &Vec<char>) -> (r: bool)
    requires
        n <= keys.len(),
    ensures
        r == key_before(key_views(keys@), n as int, k@),
{
    let ghost kv = key_views(keys@);
    let mut i: usize = 0;
    while i < n
        invariant
            i <= n <= keys.len(),
            kv == key_views(keys@),
            forall|m: int| 0 <= m < i ==> kv[m] != k@,
        decreases n - i,
    {
        if chars_eq(&keys[i], k) {
            assert(kv[i as int] == k@);
            return true;
        }
        i += 1;
    }
    false
}

/// A listed distro completed with the registry entry it receives.
pub fn merge_cli_and_registry(
    cli_entry: &InstalledDistroSnapshot,
    registry_entry: Option<&RegisteredDistroMetadata>,
) -> (r: DistroInfo)
    ensures
        r == merged_info(
            *cli_entry,
            match registry_entry {
                Some(e) => Some(*e),
                None => None,
            },
        ),
{
    match registry_entry {
        Some(e) => DistroInfo {
            name: cli_entry.name.clone(),
            state: cli_entry.state.duplicate(),
            version: cli_entry.version,
            is_default: cli_entry.is_default,
            base_path: duplicate_opt_string(&e.base_path),
            vhd_file_name: duplicate_opt_string(&e.vhd_file_name),
            flavor: duplicate_opt_string(&e.flavor),
            os_version: duplicate_opt_string(&e.os_version),
            default_uid: e.default_uid,
        },
        None => DistroInfo {
            name: cli_entry.name.clone(),
            state: cli_entry.state.duplicate(),
            version: cli_entry.version,
            is_default: cli_entry.is_default,
            base_path: None,
            vhd_file_name: None,
            flavor: None,
            os_version: None,
            default_uid: None,
        },
    }
}

/// A registered distro not listed by `wsl.exe`, reported as installing.
pub fn registry_only_distro(entry: &RegisteredDistroMetadata) -> (r: DistroInfo)
    ensures
        r == registry_only_info(*entry),
{
    DistroInfo {
        name: entry.name.clone(),
        state: DistroState::Installing,
        version: entry.version,
        is_default: false,
        base_path: duplicate_opt_string(&entry.base_path),
        vhd_file_name: duplicate_opt_string(&entry.vhd_file_name),
        flavor: duplicate_opt_string(&entry.flavor),
        os_version: duplicate_opt_string(&entry.os_version),
        default_uid: entry.default_uid,
    }
}

/// The distros sorted by name, keeping distros with equal names in their order.
pub fn sort_by_name(items: &Vec<DistroInfo>) -> (r: Vec<DistroInfo>)
    ensures
        r@.to_multiset() == items@.to_multiset(),
        sorted_by_name(r@),
{
    let mut out: Vec<DistroInfo> = Vec::new();
    let mut i: usize = 0;
    assert(items@.take(0) =~= Seq::<DistroInfo>::empty());
    while i < items.len()
        invariant
            i <= items.len(),
            sorted_by_name(out@),
            out@.to_multiset() == items@.take(i as int).to_multiset(),
        decreases items.len() - i,
    {
        let x = items[i].duplicate();
        let mut p: usize = 0;
        while p < out.len() && !name_lt(&x.name, &out[p].name)
            invariant
                p <= out.len(),
                forall|q: int| 0 <= q < p ==> !seq_lt(x.name@, #[trigger] out@[q].name@),
            decreases out.len() - p,
        {
            p += 1;
        }
        let ghost old_out = out@;
        out.insert(p, x);
        proof {
            assert(out@ == old_out.insert(p as int, x));
            assert forall|a: int, b: int|
                #![trigger out@[a], out@[b]]
                0 <= a < b < out@.len() implies !seq_lt(out@[b].name@, out@[a].name@) by {
                if a < p && b == p {
                    assert(out@[a] == old_out[a]);
                } else if a == p && b > p {
                    assert(out@[b] == old_out[b - 1]);
                    if seq_lt(old_out[b - 1].name@, x.name@) {
                        assert(p < old_out.len());
                        assert(seq_lt(x.name@, old_out[p as int].name@));
                        lemma_seq_lt_transitive(
                            old_out[b - 1].name@,
                            x.name@,
                            old_out[p as int].name@,
                        );
                        if b - 1 > p {
                            assert(!seq_lt(old_out[b - 1].name@, old_out[p as int].name@));
                        } else {
                            lemma_seq_lt_irreflexive(old_out[p as int].name@);
                        }
                    }
                } else if b < p {
                    assert(out@[a] == old_out[a] && out@[b] == old_out[b]);
                } else if a < p && b > p {
                    assert(out@[a] == old_out[a] && out@[b] == old_out[b - 1]);
                } else {
                    assert(out@[a] == old_out[a - 1] && out@[b] == old_out[b - 1]);
                }
            }
            assert(items@.take(i + 1) =~= items@.take(i as int).push(items@[i as int]));
        }
        i += 1;
    }
    assert(items@.take(items.len() as int) =~= items@);
    out
}

proof fn lemma_unclaimed_len(
    cli: Seq<InstalledDistroSnapshot>,
    reg: Seq<RegisteredDistroMetadata>,
    n: int,
)
    requires
        0 <= n,
    ensures
        unclaimed_upto(cli, reg, n).len() <= n,
    decreases n,
{
    if n > 0 {
        lemma_unclaimed_len(cli, reg, n - 1);
    }
}

/// Merges listed distros with registry metadata (see the module documentation).
pub fn aggregate_distros(
    cli_entries: Vec<InstalledDistroSnapshot>,
    registry_entries: Vec<RegisteredDistroMetadata>,
) -> (r: Vec<DistroInfo>)
    ensures
        r.len() == cli_entries.len() + unclaimed(cli_entries@, registry_entries@).len(),
        forall|i: int|
            0 <= i < cli_entries.len() ==> #[trigger] r@[i] == merged_info(
                cli_entries@[i],
                registry_match(cli_entries@, registry_entries@, i),
            ),
        sorted_by_name(r@.skip(cli_entries.len() as int)),
        r@.skip(cli_entries.len() as int).to_multiset() == unclaimed(
            cli_entries@,
            registry_entries@,
        ).map_values(|e: RegisteredDistroMetadata| registry_only_info(e)).to_multiset(),
{
    let cli = &cli_entries;
    let reg = &registry_entries;
    let ghost ck = cli_keys(cli@);
    let ghost rk = registry_keys(reg@);

    let mut ckeys: Vec<Vec<char>> = Vec::new();
    let mut i: usize = 0;
    while i < cli.len()
        invariant
            i <= cli.len(),
            ck == cli_keys(cli@),
            ckeys.len() == i,
            forall|m: int| 0 <= m < i ==> #[trigger] ckeys@[m]@ == ck[m],
        decreases cli.len() - i,
    {
        let k = key_chars(&cli[i].name);
        ckeys.push(k);
        assert(ck[i as int] == name_key(cli@[i as int].name@));
        i += 1;
    }
    assert(key_views(ckeys@) =~= ck);

    let mut rkeys: Vec<Vec<char>> = Vec::new();
    let mut j: usize = 0;
    while j < reg.len()
        invariant
            j <= reg.len(),
            rk == registry_keys(reg@),
            rkeys.len() == j,
            forall|m: int| 0 <= m < j ==> #[trigger] rkeys@[m]@ == rk[m],
        decreases reg.len() - j,
    {
        let k = key_chars(&reg[j].name);
        rkeys.push(k);
        assert(rk[j as int] == name_key(reg@[j as int].name@));
        j += 1;
    }
    assert(key_views(rkeys@) =~= rk);

    let mut out: Vec<DistroInfo> = Vec::new();
    let mut i: usize = 0;
    while i < cli.len()
        invariant
            i <= cli.len(),
            ck == cli_keys(cli@),
            rk == registry_keys(reg@),
            key_views(ckeys@) == ck,
            key_views(rkeys@) == rk,
            ckeys.len() == cli.len(),
            rkeys.len() == reg.len(),
            out.len() == i,
            forall|m: int|
                0 <= m < i ==> #[trigger] out@[m] == merged_info(
                    cli@[m],
                    registry_match(cli@, reg@, m),
                ),
        decreases cli.len() - i,
    {
        assert(key_views(ckeys@)[i as int] == ckeys@[i as int]@);
        let seen = key_among_first(&ckeys, i, &ckeys[i]);
        let found = if seen {
            None
        } else {
            find_last_key(&rkeys, &ckeys[i])
        };
        proof {
            lemma_last_index_bounds(rk, ck[i as int]);
        }
        let info = match found {
            Some(jj) => merge_cli_and_registry(&cli[i], Some(&reg[jj])),
            None => merge_cli_and_registry(&cli[i], None),
        };
        out.push(info);
        i += 1;
    }

    let mut rest: Vec<DistroInfo> = Vec::new();
    let mut j: usize = 0;
    while j < reg.len()
        invariant
            j <= reg.len(),
            ck == cli_keys(cli@),
            rk == registry_keys(reg@),
            key_views(ckeys@) == ck,
            key_views(rkeys@) == rk,
            ckeys.len() == cli.len(),
            rkeys.len() == reg.len(),
            rest@ == unclaimed_upto(cli@, reg@, j as int).map_values(
                |e: RegisteredDistroMetadata| registry_only_info(e),
            ),
        decreases reg.len() - j,
    {
        assert(key_views(rkeys@)[j as int] == rkeys@[j as int]@);
        let last = find_last_key(&rkeys, &rkeys[j]);
        let is_last = match last {
            Some(l) => l == j,
            None => false,
        };
        let keep = is_last && !key_among_first(&ckeys, ckeys.len(), &rkeys[j]);
        let ghost before = rest@;
        if keep {
            rest.push(registry_only_distro(&reg[j]));
        }
        proof {
            assert(is_unclaimed(cli@, reg@, j as int) == keep);
            assert(rest@ =~= unclaimed_upto(cli@, reg@, j + 1).map_values(
                |e: RegisteredDistroMetadata| registry_only_info(e),
            ));
        }
        j += 1;
    }

    let sorted = sort_by_name(&rest);
    let ghost head = out@;
    let n_cli: usize = out.len();
    let mut sorted_mut = sorted;
    out.append(&mut sorted_mut);
    proof {
        assert(out@.skip(n_cli as int) =~= sorted@);
        lemma_unclaimed_len(cli@, reg@, reg.len() as int);
        vstd::seq_lib::to_multiset_len(sorted@);
        vstd::seq_lib::to_multiset_len(rest@);
        assert forall|m: int| 0 <= m < cli.len() implies #[trigger] out@[m] == merged_info(
            cli@[m],
            registry_match(cli@, reg@, m),
        ) by {
            assert(out@[m] == head[m]);
        }
    }
    out
}

} // verus!
