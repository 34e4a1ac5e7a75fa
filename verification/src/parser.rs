//! Provider definitions read from D source: files, providers and probes.

use vstd::prelude::*;
use vstd::string::*;
use crate::grammar::{
    chars_of, file, file_at, Dialect, ProbeDecl, ProviderDecl, SpecProbe, SpecProvider,
};
use crate::types::{BitWidth, DataType, Integer, Sign, TypeName};

verus! {

/// Errors that occur when reading a D provider definition.
#[derive(Debug)]
pub enum DTraceError {
    /// Two probes of one provider have the same name: the provider and probe.
    DuplicateProbeName((String, String)),
    /// The source does not match the grammar of provider definitions.
    ParseError(String),
    /// The Rust/C glue could not be built.
    BuildError(String),
}

/// A single probe definition within a provider.
pub struct Probe {
    name: String,
    types: Vec<DataType>,
}

/// A probe by its name and argument types.
pub struct ProbeView {
    pub name: Seq<char>,
    pub types: Seq<DataType>,
}

impl View for Probe {
    type V = ProbeView;

    closed spec fn view(&self) -> ProbeView {
        ProbeView { name: self.name@, types: self.types@ }
    }
}

/// A single DTrace provider and its probes.
pub struct Provider {
    name: String,
    probes: Vec<Probe>,
}

/// A provider by its name and probes.
pub struct ProviderView {
    pub name: Seq<char>,
    pub probes: Seq<ProbeView>,
}

impl View for Provider {
    type V = ProviderView;

    closed spec fn view(&self) -> ProviderView {
        ProviderView { name: self.name@, probes: self.probes@.map_values(|p: Probe| p@) }
    }
}

/// A D file and the providers it defines.
pub struct File {
    name: String,
    providers: Vec<Provider>,
}

/// A file by its name and providers.
pub struct FileView {
    pub name: Seq<char>,
    pub providers: Seq<ProviderView>,
}

impl View for File {
    type V = FileView;

    closed spec fn view(&self) -> FileView {
        FileView { name: self.name@, providers: self.providers@.map_values(|p: Provider| p@) }
    }
}

// ---------------------------------------------------------------------------
// From declarations to definitions

/// All argument types of the declaration are of the provider dialect.
pub open spec fn all_known(ts: Seq<TypeName>) -> bool {
    forall|i: int| 0 <= i < ts.len() ==> #[trigger] ts[i] is Known
}

pub open spec fn known_type(t: TypeName) -> DataType {
    match t {
        TypeName::Known(d) => d,
        _ => DataType::String,
    }
}

pub open spec fn probe_def(p: SpecProbe) -> ProbeView {
    ProbeView { name: p.name, types: p.types.map_values(|t: TypeName| known_type(t)) }
}

pub open spec fn provider_def(p: SpecProvider) -> ProviderView {
    ProviderView { name: p.name, probes: p.probes.map_values(|q: SpecProbe| probe_def(q)) }
}

/// Every probe of every provider has only provider-dialect types.
pub open spec fn decls_known(ps: Seq<SpecProvider>) -> bool {
    forall|i: int, j: int|
        0 <= i < ps.len() && 0 <= j < ps[i].probes.len() ==> all_known(#[trigger] ps[i].probes[j].types)
}

/// The (provider, probe) name pairs of a provider, in order.
pub open spec fn provider_pairs(p: ProviderView) -> Seq<(Seq<char>, Seq<char>)> {
    p.probes.map_values(|q: ProbeView| (p.name, q.name))
}

/// The (provider, probe) name pairs of all providers, in order.
pub open spec fn probe_pairs(ps: Seq<ProviderView>) -> Seq<(Seq<char>, Seq<char>)>
    decreases ps.len(),
{
    if ps.len() == 0 {
        seq![]
    } else {
        probe_pairs(ps.drop_last()) + provider_pairs(ps.last())
    }
}

/// The first element of `v` at or after `j` that also occurs before it.
pub open spec fn first_repeat_from<A>(v: Seq<A>, j: int) -> Option<A>
    decreases v.len() - j,
{
    if j < 0 || j >= v.len() {
        None
    } else if v.take(j).contains(v[j]) {
        Some(v[j])
    } else {
        first_repeat_from(v, j + 1)
    }
}

/// The first (provider, probe) pair of names that occurs twice, if any.
pub open spec fn first_duplicate(ps: Seq<ProviderView>) -> Option<(Seq<char>, Seq<char>)> {
    first_repeat_from(probe_pairs(ps), 0)
}

/// What reading `source` as a provider definition gives: the providers, or
/// the error.
pub open spec fn read_source(source: Seq<char>) -> Result<Seq<ProviderView>, DTraceErrorKind> {
    match file(Dialect::Provider, source) {
        None => Err(DTraceErrorKind::Parse),
        Some(decls) => if !decls_known(decls) {
            Err(DTraceErrorKind::Parse)
        } else {
            let ps = decls.map_values(|p: SpecProvider| provider_def(p));
            match first_duplicate(ps) {
                Some(pair) => Err(DTraceErrorKind::Duplicate(pair)),
                None => Ok(ps),
            }
        },
    }
}

/// The kind of a `DTraceError`, with its contents as plain values.
pub enum DTraceErrorKind {
    Duplicate((Seq<char>, Seq<char>)),
    Parse,
    Build,
}

/// The message of a `ParseError`.
pub open spec fn parse_error_text() -> Seq<char> {
    "the source does not match the grammar of provider definitions"@
}

impl DTraceError {
    pub open spec fn kind(&self) -> DTraceErrorKind {
        match self {
            DTraceError::DuplicateProbeName(pair) => DTraceErrorKind::Duplicate((pair.0@, pair.1@)),
            DTraceError::ParseError(_) => DTraceErrorKind::Parse,
            DTraceError::BuildError(_) => DTraceErrorKind::Build,
        }
    }
}

fn convert_types(ts: &Vec<TypeName>) -> (r: Option<Vec<DataType>>)
    ensures
        match r {
            Some(v) => all_known(ts@) && v@ == ts@.map_values(|t: TypeName| known_type(t)),
            None => !all_known(ts@),
        },
{
    let mut v: Vec<DataType> = Vec::new();
    let mut i: usize = 0;
    while i < ts.len()
        invariant
            i <= ts.len(),
            all_known(ts@.take(i as int)),
            v@ == ts@.take(i as int).map_values(|t: TypeName| known_type(t)),
        decreases ts.len() - i,
    {
        match ts[i] {
            TypeName::Known(d) => {
                v.push(d);
            },
            _ => {
                return None;
            },
        }
        i = i + 1;
        proof {
            assert(ts@.take(i as int).map_values(|t: TypeName| known_type(t)) =~= v@);
            assert forall|k: int| 0 <= k < i implies #[trigger] ts@.take(i as int)[k] is Known by {
                if k < i - 1 {
                    assert(ts@.take(i - 1)[k] == ts@.take(i as int)[k]);
                }
            }
        }
    }
    proof {
        assert(ts@.take(i as int) =~= ts@);
    }
    Some(v)
}

fn probe_from_decl(p: ProbeDecl) -> (r: Option<Probe>)
    ensures
        match r {
            Some(q) => all_known(p@.types) && q@ == probe_def(p@),
            None => !all_known(p@.types),
        },
{
    match convert_types(&p.types) {
        Some(types) => Some(Probe { name: p.name, types }),
        None => None,
    }
}

fn provider_from_decl(p: ProviderDecl) -> (r: Option<Provider>)
    ensures
        match r {
            Some(q) => (forall|j: int|
                0 <= j < p@.probes.len() ==> all_known(#[trigger] p@.probes[j].types)) && q@
                == provider_def(p@),
            None => !(forall|j: int|
                0 <= j < p@.probes.len() ==> all_known(#[trigger] p@.probes[j].types)),
        },
{
    let ghost pv = p@;
    let ProviderDecl { name, probes: decls } = p;
    let mut probes: Vec<Probe> = Vec::new();
    let mut rest = decls;
    let ghost all = rest@;
    let ghost all_views = pv.probes;
    proof {
        assert(all_views == all.map_values(|q: ProbeDecl| q@));
        assert(rest@ =~= all.skip(0));
    }
    let mut i: usize = 0;
    let n = rest.len();
    while i < n
        invariant
            n == all.len(),
            i <= n,
            pv.probes == all_views,
            pv == p@,
            all_views == all.map_values(|q: ProbeDecl| q@),
            rest@ == all.skip(i as int),
            forall|j: int| 0 <= j < i ==> all_known(#[trigger] all_views[j].types),
            probes@.map_values(|q: Probe| q@) == all_views.take(i as int).map_values(
                |q: SpecProbe| probe_def(q),
            ),
        decreases n - i,
    {
        let d = rest.remove(0);
        let ghost dv = d@;
        proof {
            assert(d == all[i as int]);
            assert(dv == all_views[i as int]);
        }
        match probe_from_decl(d) {
            Some(q) => {
                let ghost old_probes = probes@;
                probes.push(q);
                proof {
                    assert(probes@.map_values(|q: Probe| q@) =~= old_probes.map_values(
                        |q: Probe| q@,
                    ).push(q@));
                    assert(all_views.take(i + 1).map_values(|q: SpecProbe| probe_def(q))
                        =~= all_views.take(i as int).map_values(|q: SpecProbe| probe_def(q)).push(
                        probe_def(all_views[i as int]),
                    ));
                }
            },
            None => {
                proof {
                    assert(!all_known(pv.probes[i as int].types));
                    assert(i < pv.probes.len());
                    assert(!(forall|j: int|
                        0 <= j < pv.probes.len() ==> all_known(#[trigger] pv.probes[j].types)));
                }
                return None;
            },
        }
        i = i + 1;
        proof {
            assert(rest@ =~= all.skip(i as int));
        }
    }
    proof {
        assert(all_views.take(n as int) =~= all_views);
        assert(probes@.map_values(|q: Probe| q@) =~= pv.probes.map_values(
            |q: SpecProbe| probe_def(q),
        ));
    }
    Some(Provider { name, probes })
}

fn providers_from_decls(decls: Vec<ProviderDecl>) -> (r: Option<Vec<Provider>>)
    ensures
        match r {
            Some(v) => decls_known(decls@.map_values(|q: ProviderDecl| q@)) && v@.map_values(
                |p: Provider| p@,
            ) == decls@.map_values(|q: ProviderDecl| q@).map_values(
                |p: SpecProvider| provider_def(p),
            ),
            None => !decls_known(decls@.map_values(|q: ProviderDecl| q@)),
        },
{
    let ghost all = decls@;
    let ghost views = decls@.map_values(|q: ProviderDecl| q@);
    let mut rest = decls;
    let mut out: Vec<Provider> = Vec::new();
    let n = rest.len();
    let mut i: usize = 0;
    proof {
        assert(rest@ =~= all.skip(0));
    }
    while i < n
        invariant
            n == all.len(),
            i <= n,
            all == decls@,
            views == all.map_values(|q: ProviderDecl| q@),
            rest@ == all.skip(i as int),
            forall|a: int, b: int|
                0 <= a < i && 0 <= b < views[a].probes.len() ==> all_known(
                    #[trigger] views[a].probes[b].types,
                ),
            out@.map_values(|p: Provider| p@) == views.take(i as int).map_values(
                |p: SpecProvider| provider_def(p),
            ),
        decreases n - i,
    {
        let d = rest.remove(0);
        let ghost dv = d@;
        proof {
            assert(d == all[i as int]);
            assert(dv == views[i as int]);
        }
        match provider_from_decl(d) {
            Some(p) => {
                let ghost old_out = out@;
                out.push(p);
                proof {
                    assert(out@.map_values(|p: Provider| p@) =~= old_out.map_values(
                        |p: Provider| p@,
                    ).push(p@));
                    assert(views.take(i + 1).map_values(|p: SpecProvider| provider_def(p))
                        =~= views.take(i as int).map_values(|p: SpecProvider| provider_def(p)).push(
                        provider_def(views[i as int]),
                    ));
                }
            },
            None => {
                proof {
                    let b = choose|b: int|
                        0 <= b < dv.probes.len() && !all_known(#[trigger] dv.probes[b].types);
                    assert(!all_known(views[i as int].probes[b].types));
                    assert(!decls_known(views));
                }
                return None;
            },
        }
        i = i + 1;
        proof {
            assert(rest@ =~= all.skip(i as int));
        }
    }
    proof {
        assert(views.take(n as int) =~= views);
    }
    Some(out)
}

/// The pairs of names as plain sequences of characters.
pub open spec fn pair_views(v: Seq<(String, String)>) -> Seq<(Seq<char>, Seq<char>)> {
    v.map_values(|p: (String, String)| (p.0@, p.1@))
}

fn name_pairs(ps: &Vec<Provider>) -> (v: Vec<(String, String)>)
    ensures
        pair_views(v@) == probe_pairs(ps@.map_values(|p: Provider| p@)),
{
    let ghost views = ps@.map_values(|p: Provider| p@);
    let mut v: Vec<(String, String)> = Vec::new();
    let mut i: usize = 0;
    proof {
        assert(views.take(0) =~= Seq::<ProviderView>::empty());
        assert(pair_views(v@) =~= probe_pairs(views.take(0)));
    }
    while i < ps.len()
        invariant
            i <= ps.len(),
            views == ps@.map_values(|p: Provider| p@),
            pair_views(v@) == probe_pairs(views.take(i as int)),
        decreases ps.len() - i,
    {
        let provider = &ps[i];
        let ghost pv = views[i as int];
        let ghost base = pair_views(v@);
        let mut j: usize = 0;
        proof {
            assert(provider_pairs(pv).take(0) =~= Seq::<(Seq<char>, Seq<char>)>::empty());
            assert(pair_views(v@) =~= base + provider_pairs(pv).take(0));
        }
        while j < provider.probes.len()
            invariant
                j <= provider.probes.len(),
                provider@ == pv,
                pv.probes == provider.probes@.map_values(|p: Probe| p@),
                pair_views(v@) == base + provider_pairs(pv).take(j as int),
            decreases provider.probes.len() - j,
        {
            let pair = (provider.name.clone(), provider.probes[j].name.clone());
            let ghost old_v = v@;
            v.push(pair);
            j = j + 1;
            proof {
                assert(pair_views(v@) =~= pair_views(old_v).push((pair.0@, pair.1@)));
                assert(provider_pairs(pv).take(j as int) =~= provider_pairs(pv).take(j - 1).push(
                    (pv.name, pv.probes[j - 1].name),
                ));
            }
        }
        proof {
            assert(provider_pairs(pv).take(j as int) =~= provider_pairs(pv));
            let t = views.take(i + 1);
            assert(t.drop_last() =~= views.take(i as int));
            assert(t.last() == pv);
        }
        i = i + 1;
    }
    proof {
        assert(views.take(i as int) =~= views);
    }
    v
}

fn first_repeat(v: &Vec<(String, String)>) -> (r: Option<usize>)
    ensures
        match r {
            Some(j) => j < v.len() && first_repeat_from(pair_views(v@), 0) == Some(
                pair_views(v@)[j as int],
            ),
            None => first_repeat_from(pair_views(v@), 0) is None,
        },
{
    let ghost vv = pair_views(v@);
    let mut j: usize = 0;
    while j < v.len()
        invariant
            j <= v.len(),
            vv == pair_views(v@),
            first_repeat_from(vv, 0) == first_repeat_from(vv, j as int),
        decreases v.len() - j,
    {
        let mut k: usize = 0;
        while k < j
            invariant
                k <= j < v.len(),
                vv == pair_views(v@),
                first_repeat_from(vv, 0) == first_repeat_from(vv, j as int),
                forall|m: int| 0 <= m < k ==> vv[m] != vv[j as int],
            decreases j - k,
        {
            if v[k].0 == v[j].0 && v[k].1 == v[j].1 {
                proof {
                    assert(vv.take(j as int)[k as int] == vv[j as int]);
                }
                return Some(j);
            }
            k = k + 1;
        }
        proof {
            assert(!vv.take(j as int).contains(vv[j as int]));
        }
        j = j + 1;
    }
    None
}

impl File {
    /// Read the providers defined by D source text, naming the file `name`.
    ///
    /// Fails with `ParseError` when the source does not match the grammar,
    /// and with `DuplicateProbeName` when a provider defines a probe name
    /// twice (the first such pair, in source order).
    pub fn from_contents(name: String, source: &str) -> (r: Result<File, DTraceError>)
        ensures
            match r {
                Ok(f) => read_source(source@) == Ok::<_, DTraceErrorKind>(f@.providers) && f@.name
                    == name@,
                Err(e) => read_source(source@) == Err::<Seq<ProviderView>, _>(e.kind()) && (e matches DTraceError::ParseError(m) ==> m@ == parse_error_text()),
            },
    {
        let s = chars_of(source);
        let decls = match file_at(Dialect::Provider, source, &s) {
            Some(d) => d,
            None => {
                return Err(DTraceError::ParseError(parse_error_message()));
            },
        };
        let providers = match providers_from_decls(decls) {
            Some(p) => p,
            None => {
                return Err(DTraceError::ParseError(parse_error_message()));
            },
        };
        let pairs = name_pairs(&providers);
        match first_repeat(&pairs) {
            Some(j) => {
                let dup = (pairs[j].0.clone(), pairs[j].1.clone());
                Err(DTraceError::DuplicateProbeName(dup))
            },
            None => Ok(File { name, providers }),
        }
    }

    /// Read the providers defined by D source text; the file's name is empty.
    pub fn parse(source: &str) -> (r: Result<File, DTraceError>)
        ensures
            match r {
                Ok(f) => read_source(source@) == Ok::<_, DTraceErrorKind>(f@.providers)
                    && f@.name.len() == 0,
                Err(e) => read_source(source@) == Err::<Seq<ProviderView>, _>(e.kind()) && (e matches DTraceError::ParseError(m) ==> m@ == parse_error_text()),
            },
    {
        File::from_contents(String::new(), source)
    }

    /// The name of the file.
    pub fn name(&self) -> (r: &String)
        ensures
            r@ == self@.name,
    {
        &self.name
    }

    /// The providers this file defines.
    pub fn providers(&self) -> (r: &Vec<Provider>)
        ensures
            r@.map_values(|p: Provider| p@) == self@.providers,
    {
        &self.providers
    }
}

impl Provider {
    /// The name of this provider.
    pub fn name(&self) -> (r: &String)
        ensures
            r@ == self@.name,
    {
        &self.name
    }

    /// The probes this provider defines.
    pub fn probes(&self) -> (r: &Vec<Probe>)
        ensures
            r@.map_values(|p: Probe| p@) == self@.probes,
    {
        &self.probes
    }
}

impl Probe {
    /// The name of this probe.
    pub fn name(&self) -> (r: &String)
        ensures
            r@ == self@.name,
    {
        &self.name
    }

    /// The data types of this probe's arguments, in order.
    pub fn types(&self) -> (r: &Vec<DataType>)
        ensures
            r@ == self@.types,
    {
        &self.types
    }
}

fn parse_error_message() -> (s: String)
    ensures
        s@ == parse_error_text(),
{
    String::from_str("the source does not match the grammar of provider definitions")
}

} // verus!
