//! Probe records: the entries that each probe site leaves in a custom linker
//! section, and their collection into a DOF [`Section`].
//!
//! A record is laid out as: its length (`u32`), a version byte, the number of
//! argument types (`u8`), flags (`u16`, 0 for a probe, otherwise an
//! is-enabled site), the address of the site (`u64`), then NUL-terminated
//! strings: the provider name, the probe name and each argument type. The
//! integers are in the byte order of the machine that wrote them, which each
//! reading function takes as a value.
//!
//! Reading a record whose version this crate handles rewrites its version byte
//! to `u8::MAX`, so that each record is registered once only: a second pass
//! over the same section skips every record seen before.

use vstd::prelude::*;
use crate::bytes::{native_order, ByteOrder};
use crate::text::string_from_utf8;
use vstd::utf8::{valid_utf8, decode_utf8, encode_utf8};
use crate::bytes::{read_u16, read_u32, read_u64, get_u16, get_u32, get_u64};
use crate::dof::{Probe, ProbeView, Provider, ProviderView, Section, Ident, is_platform_ident};
use crate::Error;
use crate::text::{hex, hex_string};
use vstd::string::*;

verus! {

/// The version of the probe records this crate writes and reads.
pub const PROBE_REC_VERSION: u8 = 1;

/// The longest provider name DTrace takes, with room for the process ID it
/// appends and the terminating NUL.
pub const MAX_PROVIDER_NAME_LEN: usize = 58;
pub const MAX_PROBE_NAME_LEN: usize = 64;
pub const MAX_FUNC_NAME_LEN: usize = 128;
pub const MAX_ARG_TYPE_LEN: usize = 128;

// ---------------------------------------------------------------------------
// Strings
// ---------------------------------------------------------------------------

/// The string whose UTF-8 bytes are the first `limit - 1` bytes of `b` (all of
/// `b` where it is shorter), where that cut falls between two characters.
pub open spec fn limited(b: Seq<u8>, limit: nat) -> Option<Seq<char>> {
    let k = if b.len() < limit - 1 {
        b.len() as int
    } else {
        limit - 1
    };
    if valid_utf8(b.take(k)) {
        Some(decode_utf8(b.take(k)))
    } else {
        None
    }
}

/// The bytes `b[start..end]` as a vector.
fn copy_range(b: &[u8], start: usize, end: usize) -> (r: Vec<u8>)
    requires
        start <= end <= b@.len(),
    ensures
        r@ == b@.subrange(start as int, end as int),
{
    let mut r: Vec<u8> = Vec::new();
    let mut i = start;
    while i < end
        invariant
            start <= i <= end <= b@.len(),
            r@ == b@.subrange(start as int, i as int),
        decreases end - i,
    {
        r.push(b[i]);
        proof {
            assert(b@.subrange(start as int, i + 1) =~= b@.subrange(start as int, i as int).push(
                b@[i as int],
            ));
        }
        i = i + 1;
    }
    r
}

/// Limit a string to a DTrace-imposed maximum: keep at most `limit - 1` of its
/// bytes, leaving room for the terminating NUL of a C string. `None` where the
/// cut would fall inside a character.
pub fn limit_string_length(s: &str, limit: usize) -> (r: Option<String>)
    requires
        limit >= 1,
    ensures
        match r {
            Some(t) => limited(encode_utf8(s@), limit as nat) == Some(t@),
            None => limited(encode_utf8(s@), limit as nat) is None,
        },
{
    let b = s.as_bytes();
    let k = if b.len() < limit - 1 {
        b.len()
    } else {
        limit - 1
    };
    string_from_utf8(copy_range(b, 0, k))
}

/// The NUL-terminated string at `at` in `b` and the position after its NUL;
/// `None` where no NUL byte follows `at` or the bytes before it are not UTF-8.
pub open spec fn cstr_at(b: Seq<u8>, at: int) -> Option<(Seq<char>, int)> {
    match first_nul(b, at) {
        None => None,
        Some(k) => if valid_utf8(b.subrange(at, k)) {
            Some((decode_utf8(b.subrange(at, k)), k + 1))
        } else {
            None
        },
    }
}

/// The first NUL byte at or after `at`.
pub open spec fn first_nul(b: Seq<u8>, at: int) -> Option<int>
    decreases b.len() - at,
{
    if at < 0 || at >= b.len() {
        None
    } else if b[at] == 0 {
        Some(at)
    } else {
        first_nul(b, at + 1)
    }
}

pub proof fn lemma_first_nul(b: Seq<u8>, at: int)
    requires
        0 <= at,
    ensures
        first_nul(b, at) matches Some(k) ==> at <= k < b.len() && b[k] == 0,
    decreases b.len() - at,
{
    if at < b.len() && b[at] != 0 {
        lemma_first_nul(b, at + 1);
    }
}

/// Read the NUL-terminated string at `at`, returning it and the position
/// after its NUL.
fn read_cstr(b: &[u8], at: usize) -> (r: Option<(String, usize)>)
    requires
        at <= b@.len(),
    ensures
        match r {
            Some((s, next)) => cstr_at(b@, at as int) == Some((s@, next as int)),
            None => cstr_at(b@, at as int) is None,
        },
{
    let n = b.len();
    let mut k = at;
    while k < n && b[k] != 0
        invariant
            n == b@.len(),
            at <= k <= n,
            first_nul(b@, k as int) == first_nul(b@, at as int),
        decreases n - k,
    {
        k = k + 1;
    }
    if k >= n {
        return None;
    }
    proof {
        lemma_first_nul(b@, at as int);
    }
    match string_from_utf8(copy_range(b, at, k)) {
        Some(s) => Some((s, k + 1)),
        None => None,
    }
}

// ---------------------------------------------------------------------------
// Ordering names as `String`s order: by their bytes
// ---------------------------------------------------------------------------

/// `a` comes before `b` in the lexicographic order of bytes.
pub open spec fn bytes_lt(a: Seq<u8>, b: Seq<u8>) -> bool
    decreases a.len(),
{
    if a.len() == 0 {
        b.len() > 0
    } else if b.len() == 0 {
        false
    } else if a[0] != b[0] {
        a[0] < b[0]
    } else {
        bytes_lt(a.drop_first(), b.drop_first())
    }
}

/// `x` comes before `y` as strings compare: by their UTF-8 bytes.
pub open spec fn name_lt(x: Seq<char>, y: Seq<char>) -> bool {
    bytes_lt(encode_utf8(x), encode_utf8(y))
}

pub proof fn lemma_bytes_lt_irrefl(a: Seq<u8>)
    ensures
        !bytes_lt(a, a),
    decreases a.len(),
{
    if a.len() > 0 {
        lemma_bytes_lt_irrefl(a.drop_first());
    }
}

pub proof fn lemma_bytes_lt_trans(a: Seq<u8>, b: Seq<u8>, c: Seq<u8>)
    requires
        bytes_lt(a, b),
        bytes_lt(b, c),
    ensures
        bytes_lt(a, c),
    decreases a.len(),
{
    if a.len() > 0 && b.len() > 0 && c.len() > 0 {
        if a[0] == b[0] && b[0] == c[0] {
            lemma_bytes_lt_trans(a.drop_first(), b.drop_first(), c.drop_first());
        }
    }
}

pub proof fn lemma_bytes_lt_total(a: Seq<u8>, b: Seq<u8>)
    requires
        a != b,
    ensures
        bytes_lt(a, b) || bytes_lt(b, a),
    decreases a.len(),
{
    if a.len() > 0 && b.len() > 0 && a[0] == b[0] {
        if a.drop_first() == b.drop_first() {
            assert(a =~= seq![a[0]] + a.drop_first());
            assert(b =~= seq![b[0]] + b.drop_first());
        }
        lemma_bytes_lt_total(a.drop_first(), b.drop_first());
    } else if a.len() == 0 && b.len() == 0 {
        assert(a =~= b);
    }
}

/// Whether `a` comes before `b` in the order of their bytes.
fn bytes_less(a: &[u8], b: &[u8]) -> (r: bool)
    ensures
        r == bytes_lt(a@, b@),
{
    let n = a.len();
    let m = b.len();
    let mut i: usize = 0;
    proof {
        assert(a@.skip(0) =~= a@);
        assert(b@.skip(0) =~= b@);
    }
    while i < n && i < m && a[i] == b[i]
        invariant
            n == a@.len(),
            m == b@.len(),
            0 <= i <= n,
            i <= m,
            bytes_lt(a@, b@) == bytes_lt(a@.skip(i as int), b@.skip(i as int)),
        decreases n - i,
    {
        proof {
            assert(a@.skip(i as int).drop_first() =~= a@.skip(i + 1));
            assert(b@.skip(i as int).drop_first() =~= b@.skip(i + 1));
        }
        i = i + 1;
    }
    if i == n {
        i < m
    } else if i == m {
        false
    } else {
        a[i] < b[i]
    }
}

/// Whether name `x` comes before name `y` as strings compare.
pub fn name_less(x: &String, y: &String) -> (r: bool)
    ensures
        r == name_lt(x@, y@),
{
    bytes_less(x.as_str().as_bytes(), y.as_str().as_bytes())
}

// ---------------------------------------------------------------------------
// Reading a record
// ---------------------------------------------------------------------------

/// The fields of a probe record after its version byte.
pub struct RecordFields {
    pub flags: u16,
    pub address: u64,
    pub provider: Seq<char>,
    pub probe: Seq<char>,
    pub args: Seq<Seq<char>>,
}

/// `n` NUL-terminated strings from `at`, each limited to the length of an
/// argument type, and the position after the last.
pub open spec fn arg_types_at(b: Seq<u8>, at: int, n: nat) -> Option<(Seq<Seq<char>>, int)>
    decreases n,
{
    if n == 0 {
        Some((seq![], at))
    } else {
        match arg_types_at(b, at, (n - 1) as nat) {
            None => None,
            Some((xs, p)) => match cstr_at(b, p) {
                None => None,
                Some((x, q)) => match limited(encode_utf8(x), MAX_ARG_TYPE_LEN as nat) {
                    None => None,
                    Some(t) => Some((xs.push(t), q)),
                },
            },
        }
    }
}

/// The fields held in `body`, the bytes of a record after its version byte:
/// `IO` where the fixed fields run past its end, `None` where a string does
/// or is not UTF-8.
pub open spec fn record_fields(body: Seq<u8>, ord: ByteOrder) -> Option<Result<RecordFields, Error>> {
    if body.len() < 11 {
        Some(Err(Error::IO))
    } else {
        let n = body[0];
        match cstr_at(body, 11) {
            None => None,
            Some((provider, p1)) => match cstr_at(body, p1) {
                None => None,
                Some((probe, p2)) => match arg_types_at(body, p2, n as nat) {
                    None => None,
                    Some((args, _)) => Some(
                        Ok(
                            RecordFields {
                                flags: read_u16(body, 1, ord),
                                address: read_u64(body, 3, ord),
                                provider,
                                probe,
                                args,
                            },
                        ),
                    ),
                },
            },
        }
    }
}

/// A probe site parsed from a record.
struct Site {
    flags: u16,
    address: u64,
    provider: String,
    probe: String,
}

/// Read the fields of the record whose bytes after the version byte are
/// `body[start..end]`.
fn read_record(b: &[u8], start: usize, end: usize, ord: ByteOrder) -> (r: Option<Result<Site, Error>>)
    requires
        start <= end <= b@.len(),
    ensures
        match r {
            None => record_fields(b@.subrange(start as int, end as int), ord) is None,
            Some(Err(e)) => record_fields(b@.subrange(start as int, end as int), ord) == Some(
                Err::<RecordFields, Error>(e),
            ),
            Some(Ok(site)) => record_fields(b@.subrange(start as int, end as int), ord) matches Some(
                Ok(f),
            ) && f.flags == site.flags && f.address == site.address && f.provider
                == site.provider@ && f.probe == site.probe@,
        },
{
    let owned = copy_range(b, start, end);
    let body = owned.as_slice();
    let ghost bv = b@.subrange(start as int, end as int);
    if body.len() < 11 {
        return Some(Err(Error::IO));
    }
    let n_args = body[0];
    let flags = get_u16(body, 1, ord);
    let address = get_u64(body, 3, ord);
    let (provider, p1) = match read_cstr(body, 11) {
        Some(x) => x,
        None => return None,
    };
    proof {
        lemma_first_nul(body@, 11);
    }
    let (probe, p2) = match read_cstr(body, p1) {
        Some(x) => x,
        None => return None,
    };
    proof {
        lemma_first_nul(body@, p1 as int);
    }
    let mut k: u8 = 0;
    let mut at = p2;
    while k < n_args
        invariant
            body@ == bv,
            bv == b@.subrange(start as int, end as int),
            bv.len() >= 11,
            n_args == bv[0],
            cstr_at(bv, 11) == Some((provider@, p1 as int)),
            cstr_at(bv, p1 as int) == Some((probe@, p2 as int)),
            0 <= k <= n_args,
            p2 <= at <= body@.len(),
            arg_types_at(body@, p2 as int, k as nat) matches Some((_, q)) && q == at,
        decreases n_args - k,
    {
        let (arg, next) = match read_cstr(body, at) {
            Some(x) => x,
            None => {
                proof {
                    let prev = arg_types_at(bv, p2 as int, k as nat);
                    assert(prev is Some);
                    assert(prev->Some_0.1 == at);
                    assert(cstr_at(bv, at as int) is None);
                    assert(arg_types_at(bv, p2 as int, (k + 1) as nat) is None);
                    lemma_arg_types_none(bv, p2 as int, (k + 1) as nat, n_args as nat);

                }
                return None;
            },
        };
        proof {
            lemma_first_nul(body@, at as int);
        }
        match limit_string_length(arg.as_str(), MAX_ARG_TYPE_LEN) {
            Some(_) => {},
            None => {
                proof {
                    let prev = arg_types_at(bv, p2 as int, k as nat);
                    assert(prev->Some_0.1 == at);
                    assert(arg_types_at(bv, p2 as int, (k + 1) as nat) is None);
                    lemma_arg_types_none(bv, p2 as int, (k + 1) as nat, n_args as nat);
                }
                return None;
            },
        }
        at = next;
        k = k + 1;
    }
    Some(Ok(Site { flags, address, provider, probe }))
}

pub proof fn lemma_arg_types_none(b: Seq<u8>, at: int, j: nat, n: nat)
    requires
        j <= n,
        arg_types_at(b, at, j) is None,
    ensures
        arg_types_at(b, at, n) is None,
    decreases n - j,
{
    if j < n {
        lemma_arg_types_none(b, at, j, (n - 1) as nat);
    }
}

// ---------------------------------------------------------------------------
// The providers collected so far, kept in order of their names
// ---------------------------------------------------------------------------

/// The first position at or after `i` whose provider does not come before `name`.
pub open spec fn provider_slot(pvs: Seq<ProviderView>, name: Seq<char>, i: int) -> int
    decreases pvs.len() - i,
{
    if i < 0 || i >= pvs.len() || !name_lt(pvs[i].name, name) {
        i
    } else {
        provider_slot(pvs, name, i + 1)
    }
}

/// The first position at or after `j` whose probe does not come before `name`.
pub open spec fn probe_slot(ps: Seq<ProbeView>, name: Seq<char>, j: int) -> int
    decreases ps.len() - j,
{
    if j < 0 || j >= ps.len() || !name_lt(ps[j].name, name) {
        j
    } else {
        probe_slot(ps, name, j + 1)
    }
}

/// Probe `p` with one more site at `address`: a probe site where `flags` is
/// zero, an is-enabled site otherwise. Offsets count from the probe's address.
pub open spec fn add_site(p: ProbeView, address: u64, flags: u16) -> ProbeView {
    let off = (address - p.address) as u32;
    if flags == 0 {
        ProbeView {
            name: p.name,
            function: p.function,
            address: p.address,
            offsets: p.offsets.push(off),
            enabled_offsets: p.enabled_offsets,
        }
    } else {
        ProbeView {
            name: p.name,
            function: p.function,
            address: p.address,
            offsets: p.offsets,
            enabled_offsets: p.enabled_offsets.push(off),
        }
    }
}

/// A probe first met at `address`; its function is named afterwards.
pub open spec fn new_probe(name: Seq<char>, address: u64) -> ProbeView {
    ProbeView { name, function: seq![], address, offsets: seq![], enabled_offsets: seq![] }
}

/// The probes with a site of probe `name` added, the probe created where it
/// is new; `None` where the site lies below the probe's address.
pub open spec fn register_site(ps: Seq<ProbeView>, name: Seq<char>, address: u64, flags: u16) -> Option<
    Seq<ProbeView>,
> {
    let j = probe_slot(ps, name, 0);
    if j < ps.len() && ps[j].name == name {
        if address < ps[j].address {
            None
        } else {
            Some(ps.update(j, add_site(ps[j], address, flags)))
        }
    } else {
        Some(ps.insert(j, add_site(new_probe(name, address), address, flags)))
    }
}

/// The providers with a site of probe `probe` of provider `prov` added.
pub open spec fn register(
    pvs: Seq<ProviderView>,
    prov: Seq<char>,
    probe: Seq<char>,
    address: u64,
    flags: u16,
) -> Option<Seq<ProviderView>> {
    let i = provider_slot(pvs, prov, 0);
    if i < pvs.len() && pvs[i].name == prov {
        match register_site(pvs[i].probes, probe, address, flags) {
            None => None,
            Some(ps) => Some(pvs.update(i, ProviderView { name: prov, probes: ps })),
        }
    } else {
        match register_site(seq![], probe, address, flags) {
            None => None,
            Some(ps) => Some(pvs.insert(i, ProviderView { name: prov, probes: ps })),
        }
    }
}

/// Probes in strictly increasing order of their names.
pub open spec fn sorted_probes(ps: Seq<ProbeView>) -> bool {
    forall|a: int, b: int| 0 <= a < b < ps.len() ==> name_lt(ps[a].name, ps[b].name)
}

/// Providers in strictly increasing order of their names, each with its
/// probes in order too: the order in which a map keyed by name holds them.
pub open spec fn sorted_providers(pvs: Seq<ProviderView>) -> bool {
    &&& forall|a: int, b: int| 0 <= a < b < pvs.len() ==> name_lt(pvs[a].name, pvs[b].name)
    &&& forall|a: int| 0 <= a < pvs.len() ==> sorted_probes(#[trigger] pvs[a].probes)
}

pub proof fn lemma_name_lt_total(x: Seq<char>, y: Seq<char>)
    requires
        x != y,
    ensures
        name_lt(x, y) || name_lt(y, x),
{
    vstd::utf8::encode_utf8_decode_utf8(x);
    vstd::utf8::encode_utf8_decode_utf8(y);
    lemma_bytes_lt_total(encode_utf8(x), encode_utf8(y));
}

pub proof fn lemma_probe_slot(ps: Seq<ProbeView>, name: Seq<char>, j: int)
    requires
        0 <= j <= ps.len(),
    ensures
        j <= probe_slot(ps, name, j) <= ps.len(),
        forall|k: int| j <= k < probe_slot(ps, name, j) ==> name_lt(ps[k].name, name),
        probe_slot(ps, name, j) < ps.len() ==> !name_lt(ps[probe_slot(ps, name, j)].name, name),
    decreases ps.len() - j,
{
    if j < ps.len() && name_lt(ps[j].name, name) {
        lemma_probe_slot(ps, name, j + 1);
    }
}

pub proof fn lemma_provider_slot(pvs: Seq<ProviderView>, name: Seq<char>, i: int)
    requires
        0 <= i <= pvs.len(),
    ensures
        i <= provider_slot(pvs, name, i) <= pvs.len(),
        forall|k: int| i <= k < provider_slot(pvs, name, i) ==> name_lt(pvs[k].name, name),
        provider_slot(pvs, name, i) < pvs.len() ==> !name_lt(
            pvs[provider_slot(pvs, name, i)].name,
            name,
        ),
    decreases pvs.len() - i,
{
    if i < pvs.len() && name_lt(pvs[i].name, name) {
        lemma_provider_slot(pvs, name, i + 1);
    }
}

/// Adding a site keeps the probes in order.
pub proof fn lemma_register_site_sorted(ps: Seq<ProbeView>, name: Seq<char>, address: u64, flags: u16)
    requires
        sorted_probes(ps),
    ensures
        register_site(ps, name, address, flags) matches Some(qs) ==> sorted_probes(qs),
{
    lemma_probe_slot(ps, name, 0);
    let j = probe_slot(ps, name, 0);
    if j < ps.len() && ps[j].name == name {
    } else {
        let p = add_site(new_probe(name, address), address, flags);
        let qs = ps.insert(j, p);
        if j < ps.len() {
            lemma_name_lt_total(ps[j].name, name);
        }
        assert forall|a: int, b: int| 0 <= a < b < qs.len() implies name_lt(qs[a].name, qs[b].name) by {
            if a < j && b < j {
            } else if a < j && b == j {
            } else if a < j {
                assert(name_lt(ps[a].name, name));
                lemma_bytes_lt_trans(encode_utf8(ps[a].name), encode_utf8(name), encode_utf8(ps[j].name));
                if b - 1 > j {
                    assert(name_lt(ps[j].name, ps[b - 1].name));
                    lemma_bytes_lt_trans(encode_utf8(ps[a].name), encode_utf8(ps[j].name), encode_utf8(ps[b - 1].name));
                }
            } else if a == j {
                if b - 1 > j {
                    assert(name_lt(ps[j].name, ps[b - 1].name));
                    lemma_bytes_lt_trans(encode_utf8(name), encode_utf8(ps[j].name), encode_utf8(ps[b - 1].name));
                }
            } else {
            }
        }
    }
}

/// Adding a site keeps the providers and their probes in order.
pub proof fn lemma_register_sorted(
    pvs: Seq<ProviderView>,
    prov: Seq<char>,
    probe: Seq<char>,
    address: u64,
    flags: u16,
)
    requires
        sorted_providers(pvs),
    ensures
        register(pvs, prov, probe, address, flags) matches Some(qs) ==> sorted_providers(qs),
{
    lemma_provider_slot(pvs, prov, 0);
    let i = provider_slot(pvs, prov, 0);
    if i < pvs.len() && pvs[i].name == prov {
        lemma_register_site_sorted(pvs[i].probes, probe, address, flags);
        if let Some(ps) = register_site(pvs[i].probes, probe, address, flags) {
            let qs = pvs.update(i, ProviderView { name: prov, probes: ps });
            assert forall|a: int| 0 <= a < qs.len() implies sorted_probes(#[trigger] qs[a].probes) by {
                if a != i {
                    assert(qs[a] == pvs[a]);
                }
            }
        }
    } else {
        lemma_register_site_sorted(seq![], probe, address, flags);
        if let Some(ps) = register_site(seq![], probe, address, flags) {
            let nv = ProviderView { name: prov, probes: ps };
            let qs = pvs.insert(i, nv);
            if i < pvs.len() {
                lemma_name_lt_total(pvs[i].name, prov);
            }
            assert forall|a: int, b: int| 0 <= a < b < qs.len() implies name_lt(qs[a].name, qs[b].name) by {
                if a < i && b < i {
                } else if a < i && b == i {
                } else if a < i {
                    lemma_bytes_lt_trans(encode_utf8(pvs[a].name), encode_utf8(prov), encode_utf8(pvs[i].name));
                    if b - 1 > i {
                        assert(name_lt(pvs[i].name, pvs[b - 1].name));
                        lemma_bytes_lt_trans(encode_utf8(pvs[a].name), encode_utf8(pvs[i].name), encode_utf8(pvs[b - 1].name));
                    }
                } else if a == i {
                    if b - 1 > i {
                        assert(name_lt(pvs[i].name, pvs[b - 1].name));
                        lemma_bytes_lt_trans(encode_utf8(prov), encode_utf8(pvs[i].name), encode_utf8(pvs[b - 1].name));
                    }
                } else {
                }
            }
            assert forall|a: int| 0 <= a < qs.len() implies sorted_probes(#[trigger] qs[a].probes) by {
                if a < i {
                    assert(qs[a] == pvs[a]);
                } else if a > i {
                    assert(qs[a] == pvs[a - 1]);
                }
            }
        }
    }
}

// ---------------------------------------------------------------------------
// Counting the sites of probes
// ---------------------------------------------------------------------------

/// The sum of a sequence of integers.
pub open spec fn total(s: Seq<int>) -> int
    decreases s.len(),
{
    if s.len() == 0 {
        0
    } else {
        total(s.drop_last()) + s.last()
    }
}

/// Replacing an element changes the sum by the difference.
pub proof fn lemma_total_update(s: Seq<int>, j: int, x: int)
    requires
        0 <= j < s.len(),
    ensures
        total(s.update(j, x)) == total(s) - s[j] + x,
    decreases s.len(),
{
    let t = s.update(j, x);
    if j == s.len() - 1 {
        assert(t.drop_last() =~= s.drop_last());
    } else {
        assert(t.drop_last() =~= s.drop_last().update(j, x));
        lemma_total_update(s.drop_last(), j, x);
    }
}

/// Inserting an element adds it to the sum.
pub proof fn lemma_total_insert(s: Seq<int>, j: int, x: int)
    requires
        0 <= j <= s.len(),
    ensures
        total(s.insert(j, x)) == total(s) + x,
    decreases s.len(),
{
    let t = s.insert(j, x);
    if j == s.len() {
        assert(t.drop_last() =~= s);
    } else {
        assert(t.drop_last() =~= s.drop_last().insert(j, x));
        lemma_total_insert(s.drop_last(), j, x);
    }
}

/// The number of sites of probe `p`: its is-enabled sites where `enabled`
/// holds, its probe sites otherwise.
pub open spec fn sites_of(p: ProbeView, enabled: bool) -> int {
    if enabled {
        p.enabled_offsets.len() as int
    } else {
        p.offsets.len() as int
    }
}

/// The number of sites of the probes `ps`.
pub open spec fn probe_sites(ps: Seq<ProbeView>, enabled: bool) -> int {
    total(ps.map_values(|p: ProbeView| sites_of(p, enabled)))
}

/// The number of sites of the probes of the providers `pvs`.
pub open spec fn provider_sites(pvs: Seq<ProviderView>, enabled: bool) -> int {
    total(pvs.map_values(|pv: ProviderView| probe_sites(pv.probes, enabled)))
}

/// Registering a site adds one site of its kind to its probe and leaves the
/// other kind as it was: one more is-enabled site where `flags` is nonzero,
/// one more probe site where it is zero, also where the probe is new.
pub proof fn lemma_register_site_counts(ps: Seq<ProbeView>, name: Seq<char>, address: u64, flags: u16)
    requires
        register_site(ps, name, address, flags) is Some,
    ensures
        probe_sites(register_site(ps, name, address, flags)->Some_0, true) == probe_sites(ps, true) + (
        if flags != 0 {
            1int
        } else {
            0int
        }),
        probe_sites(register_site(ps, name, address, flags)->Some_0, false) == probe_sites(ps, false) + (
        if flags == 0 {
            1int
        } else {
            0int
        }),
{
    lemma_probe_slot(ps, name, 0);
    let j = probe_slot(ps, name, 0);
    let qs = register_site(ps, name, address, flags)->Some_0;
    assert forall|e: bool| probe_sites(qs, e) == probe_sites(ps, e) + (if e == (flags != 0) {
        1int
    } else {
        0int
    }) by {
        let f = |p: ProbeView| sites_of(p, e);
        if j < ps.len() && ps[j].name == name {
            let q = add_site(ps[j], address, flags);
            assert(qs.map_values(f) =~= ps.map_values(f).update(j, f(q)));
            lemma_total_update(ps.map_values(f), j, f(q));
        } else {
            let q = add_site(new_probe(name, address), address, flags);
            assert(qs.map_values(f) =~= ps.map_values(f).insert(j, f(q)));
            lemma_total_insert(ps.map_values(f), j, f(q));
        }
    }
    assert(probe_sites(qs, true) == probe_sites(ps, true) + (if true == (flags != 0) { 1int } else { 0int }));
    assert(probe_sites(qs, false) == probe_sites(ps, false) + (if false == (flags != 0) { 1int } else { 0int }));
}

/// `p` is probe `name` and its newest site of the kind that `flags` gives
/// lies at `address`: at most its address, at the offset of `address` from
/// it, cut to 32 bits.
pub open spec fn site_probe_ok(p: ProbeView, name: Seq<char>, address: u64, flags: u16) -> bool {
    &&& p.name == name
    &&& p.address <= address
    &&& flags == 0 ==> p.offsets.len() > 0 && p.offsets.last() == (address - p.address) as u32
    &&& flags != 0 ==> p.enabled_offsets.len() > 0 && p.enabled_offsets.last() == (address - p.address) as u32
}

/// Registering a site of probe `name` at `address` leaves a probe of that
/// name whose address is at most `address` and whose newest site of the
/// kind that `flags` gives is the offset of `address` from the probe's
/// address, cut to 32 bits.
pub proof fn lemma_register_site_offset(ps: Seq<ProbeView>, name: Seq<char>, address: u64, flags: u16)
    requires
        register_site(ps, name, address, flags) is Some,
    ensures
        exists|j: int|
            0 <= j < register_site(ps, name, address, flags)->Some_0.len() && #[trigger] site_probe_ok(
                register_site(ps, name, address, flags)->Some_0[j],
                name,
                address,
                flags,
            ),
{
    lemma_probe_slot(ps, name, 0);
    let j = probe_slot(ps, name, 0);
    let qs = register_site(ps, name, address, flags)->Some_0;
    assert(site_probe_ok(qs[j], name, address, flags));
}

/// Registering the site of a probe record adds exactly one site to all the
/// providers: an is-enabled site where the record's flags are nonzero and a
/// probe site where they are zero; the number of sites of the other kind is
/// unchanged.
pub proof fn lemma_register_counts(
    pvs: Seq<ProviderView>,
    prov: Seq<char>,
    probe: Seq<char>,
    address: u64,
    flags: u16,
)
    requires
        register(pvs, prov, probe, address, flags) is Some,
    ensures
        provider_sites(register(pvs, prov, probe, address, flags)->Some_0, true) == provider_sites(pvs, true)
            + (if flags != 0 {
            1int
        } else {
            0int
        }),
        provider_sites(register(pvs, prov, probe, address, flags)->Some_0, false) == provider_sites(
            pvs,
            false,
        ) + (if flags == 0 {
            1int
        } else {
            0int
        }),
{
    lemma_provider_slot(pvs, prov, 0);
    let i = provider_slot(pvs, prov, 0);
    let qs = register(pvs, prov, probe, address, flags)->Some_0;
    assert forall|e: bool| provider_sites(qs, e) == provider_sites(pvs, e) + (if e == (flags != 0) {
        1int
    } else {
        0int
    }) by {
        let f = |pv: ProviderView| probe_sites(pv.probes, e);
        if i < pvs.len() && pvs[i].name == prov {
            let ps = register_site(pvs[i].probes, probe, address, flags)->Some_0;
            lemma_register_site_counts(pvs[i].probes, probe, address, flags);
            let q = ProviderView { name: prov, probes: ps };
            assert(qs.map_values(f) =~= pvs.map_values(f).update(i, f(q)));
            lemma_total_update(pvs.map_values(f), i, f(q));
        } else {
            let ps = register_site(seq![], probe, address, flags)->Some_0;
            lemma_register_site_counts(seq![], probe, address, flags);
            assert(probe_sites(seq![], e) == 0) by {
                assert(Seq::<ProbeView>::empty().map_values(|p: ProbeView| sites_of(p, e)) =~= Seq::<int>::empty());
            }
            let q = ProviderView { name: prov, probes: ps };
            assert(qs.map_values(f) =~= pvs.map_values(f).insert(i, f(q)));
            lemma_total_insert(pvs.map_values(f), i, f(q));
        }
    }
    assert(provider_sites(qs, true) == provider_sites(pvs, true) + (if true == (flags != 0) { 1int } else { 0int }));
    assert(provider_sites(qs, false) == provider_sites(pvs, false) + (if false == (flags != 0) { 1int } else { 0int }));
}

pub open spec fn probes_view(ps: Seq<Probe>) -> Seq<ProbeView> {
    ps.map_values(|p: Probe| p@)
}

pub open spec fn providers_view(pvs: Seq<Provider>) -> Seq<ProviderView> {
    pvs.map_values(|p: Provider| p@)
}

/// Add a site at `address` to the probe `p`.
fn add_site_exec(p: &mut Probe, address: u64, flags: u16)
    requires
        address >= old(p).address,
    ensures
        final(p)@ == add_site(old(p)@, address, flags),
{
    let off = (address - p.address) as u32;
    if flags == 0 {
        p.offsets.push(off);
    } else {
        p.enabled_offsets.push(off);
    }
}

/// Add a site of probe `name` to `probes`; false where the site lies below the
/// probe's address.
fn register_site_exec(probes: &mut Vec<Probe>, name: String, address: u64, flags: u16) -> (ok: bool)
    ensures
        ok == register_site(probes_view(old(probes)@), name@, address, flags) is Some,
        ok ==> probes_view(final(probes)@) == register_site(
            probes_view(old(probes)@),
            name@,
            address,
            flags,
        )->Some_0,
{
    let ghost ps = probes_view(probes@);
    let n = probes.len();
    let mut j: usize = 0;
    while j < n && name_less(&probes[j].name, &name)
        invariant
            n == probes@.len(),
            ps == probes_view(probes@),
            0 <= j <= n,
            probe_slot(ps, name@, j as int) == probe_slot(ps, name@, 0),
        decreases n - j,
    {
        proof {
            assert(ps[j as int] == probes@[j as int]@);
        }
        j = j + 1;
    }
    proof {
        if j < n {
            assert(ps[j as int] == probes@[j as int]@);
        }
    }
    if j < n && probes[j].name == name {
        if address < probes[j].address {
            return false;
        }
        let mut p = probes.remove(j);
        add_site_exec(&mut p, address, flags);
        probes.insert(j, p);
        proof {
            assert(probes_view(probes@) =~= ps.update(j as int, add_site(ps[j as int], address, flags)));
        }
    } else {
        let mut p = Probe {
            name,
            function: String::new(),
            address,
            offsets: Vec::new(),
            enabled_offsets: Vec::new(),
        };
        proof {
            assert(p@ == new_probe(name@, address));
        }
        add_site_exec(&mut p, address, flags);
        probes.insert(j, p);
        proof {
            assert(probes_view(probes@) =~= ps.insert(j as int, add_site(new_probe(name@, address), address, flags)));
        }
    }
    true
}

/// Add a site of probe `probe` of provider `prov` to `providers`; false where
/// the site lies below the probe's address.
fn register_exec(providers: &mut Vec<Provider>, prov: String, probe: String, address: u64, flags: u16) -> (ok: bool)
    ensures
        ok == register(providers_view(old(providers)@), prov@, probe@, address, flags) is Some,
        ok ==> providers_view(final(providers)@) == register(
            providers_view(old(providers)@),
            prov@,
            probe@,
            address,
            flags,
        )->Some_0,
{
    let ghost pvs = providers_view(providers@);
    let n = providers.len();
    let mut i: usize = 0;
    while i < n && name_less(&providers[i].name, &prov)
        invariant
            n == providers@.len(),
            pvs == providers_view(providers@),
            0 <= i <= n,
            provider_slot(pvs, prov@, i as int) == provider_slot(pvs, prov@, 0),
        decreases n - i,
    {
        proof {
            assert(pvs[i as int] == providers@[i as int]@);
        }
        i = i + 1;
    }
    proof {
        if i < n {
            assert(pvs[i as int] == providers@[i as int]@);
        }
    }
    if i < n && providers[i].name == prov {
        let mut pv = providers.remove(i);
        let ghost ps0 = probes_view(pv.probes@);
        proof {
            assert(ps0 == pvs[i as int].probes);
        }
        let ok = register_site_exec(&mut pv.probes, probe, address, flags);
        if !ok {
            providers.insert(i, pv);
            return false;
        }
        let ghost ps1 = probes_view(pv.probes@);
        providers.insert(i, pv);
        proof {
            assert(pv@ == ProviderView { name: prov@, probes: ps1 });
            assert(providers_view(providers@) =~= pvs.update(i as int, ProviderView { name: prov@, probes: ps1 }));
        }
    } else {
        let mut probes: Vec<Probe> = Vec::new();
        proof {
            assert(probes_view(probes@) =~= Seq::<ProbeView>::empty());
        }
        let ok = register_site_exec(&mut probes, probe, address, flags);
        if !ok {
            return false;
        }
        let pv = Provider { name: prov, probes };
        proof {
            assert(pv@.probes == probes_view(probes@));
        }
        providers.insert(i, pv);
        proof {
            assert(providers_view(providers@) =~= pvs.insert(i as int, pv@));
        }
    }
    true
}

// ---------------------------------------------------------------------------
// Processing a section of records
// ---------------------------------------------------------------------------

/// Process the records of `data` from `pos` on, adding their sites to `pvs`:
/// the providers that result (or the error that stops the pass) and the bytes
/// as the pass leaves them, each handled record's version byte set to
/// `u8::MAX`. Records of a later version, or already handled, are skipped.
/// `None` where the records cannot be processed: a length that does not fit, a string
/// that runs out or is not UTF-8, a name cut inside a character, or a site
/// below its probe's address.
pub open spec fn process_from(data: Seq<u8>, pos: int, pvs: Seq<ProviderView>, ord: ByteOrder) -> Option<
    (Result<Seq<ProviderView>, Error>, Seq<u8>),
>
    decreases data.len() - pos,
{
    if pos < 0 || pos >= data.len() {
        Some((Ok(pvs), data))
    } else if data.len() - pos < 4 {
        None
    } else {
        let len = read_u32(data, pos, ord) as int;
        if len < 5 || pos + len > data.len() {
            None
        } else if data[pos + 4] > PROBE_REC_VERSION {
            process_from(data, pos + len, pvs, ord)
        } else {
            let data1 = data.update(pos + 4, 0xffu8);
            match record_fields(data.subrange(pos + 5, pos + len), ord) {
                None => None,
                Some(Err(e)) => Some((Err(e), data1)),
                Some(Ok(f)) => match (
                    limited(encode_utf8(f.provider), MAX_PROVIDER_NAME_LEN as nat),
                    limited(encode_utf8(f.probe), MAX_PROBE_NAME_LEN as nat),
                ) {
                    (Some(pn), Some(qn)) => match register(pvs, pn, qn, f.address, f.flags) {
                        None => None,
                        Some(pvs2) => process_from(data1, pos + len, pvs2, ord),
                    },
                    _ => None,
                },
            }
        }
    }
}

/// The records of a whole section, from no providers.
pub open spec fn process_records(data: Seq<u8>, ord: ByteOrder) -> Option<(Result<Seq<ProviderView>, Error>, Seq<u8>)> {
    process_from(data, 0, seq![], ord)
}

pub open spec fn collected_view(r: Result<Vec<Provider>, Error>) -> Result<Seq<ProviderView>, Error> {
    match r {
        Ok(v) => Ok(providers_view(v@)),
        Err(e) => Err(e),
    }
}

pub proof fn lemma_process_sorted(data: Seq<u8>, pos: int, pvs: Seq<ProviderView>, ord: ByteOrder)
    requires
        sorted_providers(pvs),
    ensures
        process_from(data, pos, pvs, ord) matches Some((Ok(qs), _)) ==> sorted_providers(qs),
    decreases data.len() - pos,
{
    if pos >= 0 && pos < data.len() && data.len() - pos >= 4 {
        let len = read_u32(data, pos, ord) as int;
        if len >= 5 && pos + len <= data.len() {
            if data[pos + 4] > PROBE_REC_VERSION {
                lemma_process_sorted(data, pos + len, pvs, ord);
            } else {
                let data1 = data.update(pos + 4, 0xffu8);
                if let Some(Ok(f)) = record_fields(data.subrange(pos + 5, pos + len), ord) {
                    if let (Some(pn), Some(qn)) = (
                        limited(encode_utf8(f.provider), MAX_PROVIDER_NAME_LEN as nat),
                        limited(encode_utf8(f.probe), MAX_PROBE_NAME_LEN as nat),
                    ) {
                        lemma_register_sorted(pvs, pn, qn, f.address, f.flags);
                        if let Some(pvs2) = register(pvs, pn, qn, f.address, f.flags) {
                            lemma_process_sorted(data1, pos + len, pvs2, ord);
                        }
                    }
                }
            }
        }
    }
}

/// The number of probe records of `data` from `pos` on that a pass handles
/// (those of the current version, not yet handled, that can be read) whose
/// flags mark an is-enabled site where `enabled` holds, a probe site
/// otherwise.
pub open spec fn handled_sites(data: Seq<u8>, pos: int, enabled: bool, ord: ByteOrder) -> int
    decreases data.len() - pos,
{
    if pos < 0 || pos >= data.len() || data.len() - pos < 4 {
        0
    } else {
        let len = read_u32(data, pos, ord) as int;
        if len < 5 || pos + len > data.len() {
            0
        } else if data[pos + 4] > PROBE_REC_VERSION {
            handled_sites(data, pos + len, enabled, ord)
        } else {
            match record_fields(data.subrange(pos + 5, pos + len), ord) {
                Some(Ok(f)) => (if (f.flags != 0) == enabled {
                    1int
                } else {
                    0int
                }) + handled_sites(data.update(pos + 4, 0xffu8), pos + len, enabled, ord),
                _ => 0,
            }
        }
    }
}

/// A pass adds one site per handled record, of the kind its flags give: the
/// probes gain exactly as many is-enabled sites as there are handled records
/// with nonzero flags, and as many probe sites as there are with zero flags.
pub proof fn lemma_process_counts_sites(data: Seq<u8>, pos: int, pvs: Seq<ProviderView>, enabled: bool, ord: ByteOrder)
    ensures
        process_from(data, pos, pvs, ord) matches Some((Ok(qs), _)) ==> provider_sites(qs, enabled)
            == provider_sites(pvs, enabled) + handled_sites(data, pos, enabled, ord),
    decreases data.len() - pos,
{
    if pos >= 0 && pos < data.len() && data.len() - pos >= 4 {
        let len = read_u32(data, pos, ord) as int;
        if len >= 5 && pos + len <= data.len() {
            if data[pos + 4] > PROBE_REC_VERSION {
                lemma_process_counts_sites(data, pos + len, pvs, enabled, ord);
            } else {
                let data1 = data.update(pos + 4, 0xffu8);
                if let Some(Ok(f)) = record_fields(data.subrange(pos + 5, pos + len), ord) {
                    if let (Some(pn), Some(qn)) = (
                        limited(encode_utf8(f.provider), MAX_PROVIDER_NAME_LEN as nat),
                        limited(encode_utf8(f.probe), MAX_PROBE_NAME_LEN as nat),
                    ) {
                        if let Some(pvs2) = register(pvs, pn, qn, f.address, f.flags) {
                            lemma_register_counts(pvs, pn, qn, f.address, f.flags);
                            lemma_process_counts_sites(data1, pos + len, pvs2, enabled, ord);
                        }
                    }
                }
            }
        }
    }
}

/// Of the probes that processing a whole section gives, the is-enabled
/// sites number the handled records with nonzero flags, and the probe sites
/// those with zero flags.
pub proof fn lemma_processed_site_counts(data: Seq<u8>, ord: ByteOrder)
    requires
        process_records(data, ord) matches Some((Ok(_), _)),
    ensures
        provider_sites(process_records(data, ord)->Some_0.0->Ok_0, true) == handled_sites(data, 0, true, ord),
        provider_sites(process_records(data, ord)->Some_0.0->Ok_0, false) == handled_sites(data, 0, false, ord),
{
    lemma_process_counts_sites(data, 0, seq![], true, ord);
    lemma_process_counts_sites(data, 0, seq![], false, ord);
    assert(Seq::<ProviderView>::empty().map_values(|pv: ProviderView| probe_sites(pv.probes, true)) =~= Seq::<int>::empty());
    assert(Seq::<ProviderView>::empty().map_values(|pv: ProviderView| probe_sites(pv.probes, false)) =~= Seq::<int>::empty());
}

/// Collect the sites of all records of `data`, marking each handled record.
/// `None` where the records cannot be read at all.
fn collect_records(data: &mut [u8], ord: ByteOrder) -> (r: Option<Result<Vec<Provider>, Error>>)
    ensures
        match r {
            Some(res) => process_records(old(data)@, ord) == Some((collected_view(res), final(data)@)),
            None => process_records(old(data)@, ord) is None,
        },
{
    let ghost total = process_records(data@, ord);
    let mut providers: Vec<Provider> = Vec::new();
    let n = data.len();
    let mut pos: usize = 0;
    proof {
        assert(providers_view(providers@) =~= Seq::<ProviderView>::empty());
    }
    while pos < n
        invariant
            n == data@.len(),
            0 <= pos <= n,
            total == process_records(old(data)@, ord),
            process_from(data@, pos as int, providers_view(providers@), ord) == total,
        decreases n - pos,
    {
        if n - pos < 4 {
            return None;
        }
        let len = get_u32(data, pos, ord) as usize;
        if len < 5 || len > n - pos {
            return None;
        }
        let version = data[pos + 4];
        if version > PROBE_REC_VERSION {
            pos = pos + len;
        } else {
            let ghost before = data@;
            data[pos + 4] = 0xffu8;
            proof {
                assert(data@ == before.update(pos + 4, 0xffu8));
                assert(data@.subrange(pos + 5, pos + len) =~= before.subrange(pos + 5, pos + len));
            }
            let site = match read_record(data, pos + 5, pos + len, ord) {
                None => {
                    return None;
                },
                Some(Err(e)) => {
                    proof {
                        assert(record_fields(before.subrange(pos + 5, pos + len), ord) == Some(
                            Err::<RecordFields, Error>(e),
                        ));
                        assert(process_from(before, pos as int, providers_view(providers@), ord) == Some(
                            (Err::<Seq<ProviderView>, Error>(e), data@),
                        ));
                    }
                    return Some(Err(e));
                },
                Some(Ok(site)) => site,
            };
            let prov = match limit_string_length(site.provider.as_str(), MAX_PROVIDER_NAME_LEN) {
                Some(x) => x,
                None => {
                    return None;
                },
            };
            let probe = match limit_string_length(site.probe.as_str(), MAX_PROBE_NAME_LEN) {
                Some(x) => x,
                None => {
                    return None;
                },
            };
            if !register_exec(&mut providers, prov, probe, site.address, site.flags) {
                return None;
            }
            pos = pos + len;
        }
    }
    Some(Ok(providers))
}

/// A pass from `pos` leaves the length of the bytes and every byte before
/// `pos` as they were.
pub proof fn lemma_process_frame(data: Seq<u8>, pos: int, pvs: Seq<ProviderView>, ord: ByteOrder)
    requires
        0 <= pos,
    ensures
        process_from(data, pos, pvs, ord) matches Some((_, d2)) ==> d2.len() == data.len() && forall|
            i: int,
        |
            0 <= i < pos ==> d2[i] == data[i],
    decreases data.len() - pos,
{
    if pos < data.len() && data.len() - pos >= 4 {
        let len = read_u32(data, pos, ord) as int;
        if len >= 5 && pos + len <= data.len() {
            if data[pos + 4] > PROBE_REC_VERSION {
                lemma_process_frame(data, pos + len, pvs, ord);
            } else {
                let data1 = data.update(pos + 4, 0xffu8);
                if let Some(Ok(f)) = record_fields(data.subrange(pos + 5, pos + len), ord) {
                    if let (Some(pn), Some(qn)) = (
                        limited(encode_utf8(f.provider), MAX_PROVIDER_NAME_LEN as nat),
                        limited(encode_utf8(f.probe), MAX_PROBE_NAME_LEN as nat),
                    ) {
                        if let Some(pvs2) = register(pvs, pn, qn, f.address, f.flags) {
                            lemma_process_frame(data1, pos + len, pvs2, ord);
                        }
                    }
                }
            }
        }
    }
}

/// After a pass from `pos` that succeeded, a second pass from `pos` over the
/// bytes it left adds no site and changes no byte.
pub proof fn lemma_reprocess_from(data: Seq<u8>, pos: int, pvs: Seq<ProviderView>, m: Seq<ProviderView>, ord: ByteOrder)
    requires
        0 <= pos,
        process_from(data, pos, pvs, ord) matches Some((Ok(_), _)),
    ensures
        process_from(process_from(data, pos, pvs, ord)->Some_0.1, pos, m, ord) == Some(
            (Ok::<Seq<ProviderView>, Error>(m), process_from(data, pos, pvs, ord)->Some_0.1),
        ),
    decreases data.len() - pos,
{
    let d2 = process_from(data, pos, pvs, ord)->Some_0.1;
    if pos >= data.len() {
    } else {
        let len = read_u32(data, pos, ord) as int;
        let next = if data[pos + 4] > PROBE_REC_VERSION {
            data
        } else {
            data.update(pos + 4, 0xffu8)
        };
        if data[pos + 4] > PROBE_REC_VERSION {
            lemma_reprocess_from(data, pos + len, pvs, m, ord);
            lemma_process_frame(data, pos + len, pvs, ord);
        } else {
            let f = record_fields(data.subrange(pos + 5, pos + len), ord)->Some_0->Ok_0;
            let pn = limited(encode_utf8(f.provider), MAX_PROVIDER_NAME_LEN as nat)->Some_0;
            let qn = limited(encode_utf8(f.probe), MAX_PROBE_NAME_LEN as nat)->Some_0;
            let pvs2 = register(pvs, pn, qn, f.address, f.flags)->Some_0;
            lemma_reprocess_from(next, pos + len, pvs2, m, ord);
            lemma_process_frame(next, pos + len, pvs2, ord);
        }
        assert(d2[pos] == data[pos] && d2[pos + 1] == data[pos + 1] && d2[pos + 2] == data[pos + 2]
            && d2[pos + 3] == data[pos + 3]);
        assert(read_u32(d2, pos, ord) == read_u32(data, pos, ord));
        assert(d2[pos + 4] > PROBE_REC_VERSION);
    }
}

/// Processing the records of a section registers each record once: once a
/// pass in a byte order has succeeded, a second pass in that order over the
/// bytes it left finds no probe and changes nothing.
pub proof fn lemma_second_pass_registers_nothing(data: Seq<u8>, ord: ByteOrder)
    requires
        process_records(data, ord) matches Some((Ok(_), _)),
    ensures
        process_records(process_records(data, ord)->Some_0.1, ord) == Some(
            (Ok::<Seq<ProviderView>, Error>(seq![]), process_records(data, ord)->Some_0.1),
        ),
{
    lemma_reprocess_from(data, 0, seq![], seq![], ord);
}

// ---------------------------------------------------------------------------
// Naming the functions that hold the probes
// ---------------------------------------------------------------------------

pub open spec fn opt_view(r: Option<String>) -> Option<Seq<char>> {
    match r {
        Some(s) => Some(s@),
        None => None,
    }
}

/// The name given to the function that holds a probe at `address`: the name
/// the address resolves to, limited in length, or `?` and the address in hex
/// where it resolves to none.
pub open spec fn function_name(resolved: Option<Seq<char>>, address: u64) -> Option<Seq<char>> {
    match resolved {
        Some(s) => limited(encode_utf8(s), MAX_FUNC_NAME_LEN as nat),
        None => Some(seq!['?'] + hex(address as nat)),
    }
}

/// A resolved name that can be limited in length without cutting a character.
pub open spec fn resolved_ok(r: Option<String>) -> bool {
    r matches Some(s) ==> limited(encode_utf8(s@), MAX_FUNC_NAME_LEN as nat) is Some
}

/// `q` is `p` with its function named after what `resolve` gives for its address.
pub open spec fn probe_named<F: Fn(u64) -> Option<String>>(p: ProbeView, q: ProbeView, resolve: F) -> bool {
    &&& q.name == p.name
    &&& q.address == p.address
    &&& q.offsets == p.offsets
    &&& q.enabled_offsets == p.enabled_offsets
    &&& exists|r: Option<String>|
        call_ensures(resolve, (p.address,), r) && function_name(opt_view(r), p.address) == Some(
            q.function,
        )
}

/// `b` is `a` with the function of each probe named.
pub open spec fn providers_named<F: Fn(u64) -> Option<String>>(
    a: Seq<ProviderView>,
    b: Seq<ProviderView>,
    resolve: F,
) -> bool {
    &&& a.len() == b.len()
    &&& forall|i: int|
        0 <= i < a.len() ==> {
            &&& (#[trigger] b[i]).name == a[i].name
            &&& b[i].probes.len() == a[i].probes.len()
            &&& forall|j: int|
                0 <= j < a[i].probes.len() ==> probe_named(a[i].probes[j], #[trigger] b[i].probes[j], resolve)
        }
}

/// Name the function that holds a probe at `address`.
fn name_function(resolved: Option<String>, address: u64) -> (r: String)
    requires
        resolved_ok(resolved),
    ensures
        function_name(opt_view(resolved), address) == Some(r@),
{
    match resolved {
        Some(s) => match limit_string_length(s.as_str(), MAX_FUNC_NAME_LEN) {
            Some(t) => t,
            None => {
                proof {
                    assert(false);
                }
                String::new()
            },
        },
        None => {
            proof {
                reveal_strlit("?");
            }
            let mut r = String::from_str("?");
            let h = hex_string(address);
            r.append(h.as_str());
            r
        },
    }
}

/// Name the function of each probe after what `resolve` gives for its address.
fn name_functions<F: Fn(u64) -> Option<String>>(providers: Vec<Provider>, resolve: &F) -> (r: Vec<
    Provider,
>)
    requires
        forall|a: u64| call_requires(*resolve, (a,)),
        forall|a: u64, x: Option<String>| call_ensures(*resolve, (a,), x) ==> resolved_ok(x),
    ensures
        providers_named(providers_view(providers@), providers_view(r@), *resolve),
{
    let ghost a = providers_view(providers@);
    let mut rest = providers;
    let mut out: Vec<Provider> = Vec::new();
    let n = rest.len();
    let mut i: usize = 0;
    while i < n
        invariant
            forall|x: u64| call_requires(*resolve, (x,)),
            forall|x: u64, y: Option<String>| call_ensures(*resolve, (x,), y) ==> resolved_ok(y),
            n == a.len(),
            0 <= i <= n,
            providers_view(rest@) == a.skip(i as int),
            out@.len() == i,
            providers_named(a.take(i as int), providers_view(out@), *resolve),
        decreases n - i,
    {
        let ghost rest0 = rest@;
        proof {
            assert(providers_view(rest0).len() == rest0.len());
        }
        let pv = rest.remove(0);
        proof {
            assert(providers_view(rest0)[0] == a.skip(i as int)[0]);
            assert(pv@ == a[i as int]);
            assert forall|q: int| 0 <= q < rest@.len() implies #[trigger] providers_view(rest@)[q]
                == a.skip(i + 1)[q] by {
                assert(rest@[q] == rest0[q + 1]);
                assert(providers_view(rest0)[q + 1] == a.skip(i as int)[q + 1]);
            }
            assert(providers_view(rest@) =~= a.skip(i + 1));
        }
        let ghost ps = probes_view(pv.probes@);
        let name = pv.name;
        let mut probes = pv.probes;
        let mut named: Vec<Probe> = Vec::new();
        let m = probes.len();
        let mut j: usize = 0;
        while j < m
            invariant
                forall|x: u64| call_requires(*resolve, (x,)),
                forall|x: u64, y: Option<String>| call_ensures(*resolve, (x,), y) ==> resolved_ok(y),
                m == ps.len(),
                0 <= j <= m,
                probes_view(probes@) == ps.skip(j as int),
                named@.len() == j,
                forall|k: int| 0 <= k < j ==> probe_named(ps[k], #[trigger] probes_view(named@)[k], *resolve),
            decreases m - j,
        {
            let ghost probes0 = probes@;
            proof {
                assert(probes_view(probes0).len() == probes0.len());
            }
            let mut p = probes.remove(0);
            proof {
                assert(probes_view(probes0)[0] == ps.skip(j as int)[0]);
                assert(p@ == ps[j as int]);
                assert forall|q: int| 0 <= q < probes@.len() implies #[trigger] probes_view(probes@)[q]
                    == ps.skip(j + 1)[q] by {
                    assert(probes@[q] == probes0[q + 1]);
                    assert(probes_view(probes0)[q + 1] == ps.skip(j as int)[q + 1]);
                }
                assert(probes_view(probes@) =~= ps.skip(j + 1));
            }
            let resolved = resolve(p.address);
            let ghost p0 = p@;
            p.function = name_function(resolved, p.address);
            proof {
                assert(probe_named(p0, p@, *resolve));
            }
            let ghost named0 = probes_view(named@);
            named.push(p);
            proof {
                assert(probes_view(named@) =~= named0.push(p@));
            }
            j = j + 1;
        }
        let ghost out0 = providers_view(out@);
        out.push(Provider { name, probes: named });
        proof {
            assert(providers_view(out@) =~= out0.push(providers_view(out@)[i as int]));
            let b = providers_view(out@);
            let at = a.take(i + 1);
            assert forall|q: int| 0 <= q < at.len() implies {
                &&& (#[trigger] b[q]).name == at[q].name
                &&& b[q].probes.len() == at[q].probes.len()
                &&& forall|k: int|
                    0 <= k < at[q].probes.len() ==> probe_named(at[q].probes[k], #[trigger] b[q].probes[k], *resolve)
            } by {
                if q < i {
                    assert(at[q] == a.take(i as int)[q]);
                    assert(b[q] == out0[q]);
                } else {
                    assert(at[q] == a[i as int]);
                    assert(b[q].probes == probes_view(named@));
                    assert(ps.skip(m as int).len() == 0);
                }
            }
        }
        i = i + 1;
    }
    proof {
        assert(a.take(n as int) =~= a);
    }
    out
}

/// Naming the functions of probes keeps providers and probes in order.
pub proof fn lemma_named_sorted<F: Fn(u64) -> Option<String>>(
    a: Seq<ProviderView>,
    b: Seq<ProviderView>,
    resolve: F,
)
    requires
        sorted_providers(a),
        providers_named(a, b, resolve),
    ensures
        sorted_providers(b),
{
    assert forall|x: int, y: int| 0 <= x < y < b.len() implies name_lt(b[x].name, b[y].name) by {
        assert(b[x].name == a[x].name);
        assert(b[y].name == a[y].name);
    }
    assert forall|x: int| 0 <= x < b.len() implies sorted_probes(#[trigger] b[x].probes) by {
        assert(b[x].name == a[x].name);
        assert(sorted_probes(a[x].probes));
        assert forall|u: int, v: int| 0 <= u < v < b[x].probes.len() implies name_lt(
            b[x].probes[u].name,
            b[x].probes[v].name,
        ) by {
            assert(probe_named(a[x].probes[u], b[x].probes[u], resolve));
            assert(probe_named(a[x].probes[v], b[x].probes[v], resolve));
        }
    }
}

/// What processing a section gives, in the terms of `process_records` with
/// the byte order `ord`: the providers, each probe's function named after
/// what `resolve` gives for its address, in the order of their names; and the
/// identifier of DOF built for this platform, whose byte order is `ord`.
pub open spec fn processed<F: Fn(u64) -> Option<String>>(
    data: Seq<u8>,
    r: Result<Section, Error>,
    resolve: F,
    ord: ByteOrder,
) -> bool {
    match r {
        Ok(sec) => {
            &&& process_records(data, ord) matches Some((Ok(pvs), _)) && providers_named(
                pvs,
                sec@.providers,
                resolve,
            )
            &&& sorted_providers(sec@.providers)
            &&& is_platform_ident(sec.ident, ord)
        },
        Err(e) => process_records(data, ord) matches Some((Err(e2), _)) && e2 == e,
    }
}

/// What a pass over the records of `data` in the byte order `ord` gives:
/// `None` where they cannot be read at all; otherwise the bytes as the pass
/// leaves them, `after`, and the section or error of `processed`.
pub open spec fn pass_result<F: Fn(u64) -> Option<String>>(
    data: Seq<u8>,
    after: Seq<u8>,
    r: Option<Result<Section, Error>>,
    resolve: F,
    ord: ByteOrder,
) -> bool {
    match r {
        None => process_records(data, ord) is None,
        Some(res) => after == process_records(data, ord)->Some_0.1 && processed(data, res, resolve, ord),
    }
}

/// Extract the probes of all records in a probe-record section whose
/// integers are stored in the byte order `ord`, and mark each record it
/// handles so that a later pass skips it. The function that holds each probe
/// is named after what `resolve` gives for the probe's address (its symbol,
/// if any). `None` where the records cannot be read at all, with the bytes as
/// the pass left them.
pub fn try_process_section_in_order<F: Fn(u64) -> Option<String>>(
    data: &mut [u8],
    resolve: F,
    ord: ByteOrder,
) -> (r: Option<Result<Section, Error>>)
    requires
        forall|a: u64| call_requires(resolve, (a,)),
        forall|a: u64, x: Option<String>| call_ensures(resolve, (a,), x) ==> resolved_ok(x),
    ensures
        pass_result(old(data)@, final(data)@, r, resolve, ord),
{
    let ghost d0 = data@;
    match collect_records(data, ord) {
        None => None,
        Some(Err(e)) => Some(Err(e)),
        Some(Ok(providers)) => {
            proof {
                lemma_process_sorted(d0, 0, seq![], ord);
            }
            let named = name_functions(providers, &resolve);
            proof {
                lemma_named_sorted(providers_view(providers@), providers_view(named@), resolve);
            }
            Some(Ok(Section { ident: Ident::for_order(ord), providers: named }))
        },
    }
}

/// Extract the probes of all records in a probe-record section, whose
/// integers are stored in the byte order of the machine, and mark each
/// record it handles so that a later pass skips it. The function that holds
/// each probe is named after what `resolve` gives for the probe's address.
/// `None` where the records cannot be read at all.
pub fn try_process_section<F: Fn(u64) -> Option<String>>(data: &mut [u8], resolve: F) -> (r: Option<
    Result<Section, Error>,
>)
    requires
        forall|a: u64| call_requires(resolve, (a,)),
        forall|a: u64, x: Option<String>| call_ensures(resolve, (a,), x) ==> resolved_ok(x),
    ensures
        pass_result(old(data)@, final(data)@, r, resolve, ByteOrder::Little) || pass_result(
            old(data)@,
            final(data)@,
            r,
            resolve,
            ByteOrder::Big,
        ),
{
    let ord = native_order();
    try_process_section_in_order(data, resolve, ord)
}

/// Extract the probes of all records in a probe-record section whose
/// integers are stored in the byte order `ord`, and mark each record it
/// handles so that a later pass skips it.
pub fn process_section_in_order<F: Fn(u64) -> Option<String>>(
    data: &mut [u8],
    resolve: F,
    ord: ByteOrder,
) -> (r: Result<Section, Error>)
    requires
        process_records(old(data)@, ord) is Some,
        forall|a: u64| call_requires(resolve, (a,)),
        forall|a: u64, x: Option<String>| call_ensures(resolve, (a,), x) ==> resolved_ok(x),
    ensures
        final(data)@ == process_records(old(data)@, ord)->Some_0.1,
        processed(old(data)@, r, resolve, ord),
{
    match try_process_section_in_order(data, resolve, ord) {
        Some(r) => r,
        None => {
            proof {
                assert(false);
            }
            Err(Error::IO)
        },
    }
}

/// What `process_section` gives in the byte order `ord`: as a pass gives it,
/// and an `IO` error where the records cannot be read at all.
pub open spec fn section_processed<F: Fn(u64) -> Option<String>>(
    data: Seq<u8>,
    after: Seq<u8>,
    r: Result<Section, Error>,
    resolve: F,
    ord: ByteOrder,
) -> bool {
    match process_records(data, ord) {
        None => r == Err::<Section, Error>(Error::IO),
        Some(_) => pass_result(data, after, Some(r), resolve, ord),
    }
}

/// Extract the probes of all records in a probe-record section, whose
/// integers are stored in the byte order of the machine, and mark each
/// record it handles so that a later pass skips it. An `IO` error where the
/// records cannot be read at all.
pub fn process_section<F: Fn(u64) -> Option<String>>(data: &mut [u8], resolve: F) -> (r: Result<
    Section,
    Error,
>)
    requires
        forall|a: u64| call_requires(resolve, (a,)),
        forall|a: u64, x: Option<String>| call_ensures(resolve, (a,), x) ==> resolved_ok(x),
    ensures
        section_processed(old(data)@, final(data)@, r, resolve, ByteOrder::Little) || section_processed(
            old(data)@,
            final(data)@,
            r,
            resolve,
            ByteOrder::Big,
        ),
{
    let ord = native_order();
    match try_process_section_in_order(data, resolve, ord) {
        Some(r) => r,
        None => Err(Error::IO),
    }
}

} // verus!
