//! Providers and probes as the probe macros hold them, and their D source.

use vstd::prelude::*;
use vstd::string::*;
use crate::types::{DataType as NativeDataType, c_type_name, rust_type_name, ffi_type_name};
use crate::text::{replace_all, replace_str};
use crate::parser::{Probe as ParsedProbe, ProbeView, Provider as ParsedProvider};

verus! {

/// A data type that a probe argument may have.
#[derive(Clone, Debug, PartialEq, Eq)]
pub enum DataType {
    /// A type that D knows, such as `uint8_t` or `char*`.
    Native(NativeDataType),
    /// A unique ID that ties the probes of one operation together.
    UniqueId,
    /// A Rust type that is serialized to JSON to be passed to the probe; it
    /// is held here as its Rust source text.
    Serializable(String),
}

/// The C type that carries an argument of type `t`.
pub open spec fn c_type_of(t: DataType) -> Seq<char> {
    match t {
        DataType::Native(inner) => c_type_name(inner),
        DataType::UniqueId => "uint64_t"@,
        DataType::Serializable(_) => "char*"@,
    }
}

/// The Rust FFI type that carries an argument of type `t`.
pub open spec fn ffi_type_of(t: DataType) -> Seq<char> {
    match t {
        DataType::Native(inner) => ffi_type_name(inner),
        DataType::UniqueId => "u64"@,
        DataType::Serializable(_) => "*const ::std::os::raw::c_char"@,
    }
}

/// The Rust type of an argument of type `t`.
pub open spec fn rust_type_of(t: DataType) -> Seq<char> {
    match t {
        DataType::Native(inner) => rust_type_name(inner),
        DataType::UniqueId => "::usdt::UniqueId"@,
        DataType::Serializable(s) => s@,
    }
}

impl DataType {
    /// The C type representation of this data type.
    pub fn to_c_type(&self) -> (s: String)
        ensures
            s@ == c_type_of(*self),
    {
        match self {
            DataType::Native(inner) => inner.to_c_type(),
            DataType::UniqueId => String::from_str("uint64_t"),
            DataType::Serializable(_) => String::from_str("char*"),
        }
    }

    /// The Rust FFI type representation of this data type, as source text.
    pub fn to_rust_ffi_type(&self) -> (s: String)
        ensures
            s@ == ffi_type_of(*self),
    {
        match self {
            DataType::Native(inner) => inner.to_rust_ffi_type(),
            DataType::UniqueId => String::from_str("u64"),
            DataType::Serializable(_) => String::from_str("*const ::std::os::raw::c_char"),
        }
    }

    /// The native Rust type representation of this data type, as source text.
    pub fn to_rust_type(&self) -> (s: String)
        ensures
            s@ == rust_type_of(*self),
    {
        match self {
            DataType::Native(inner) => inner.to_rust_type(),
            DataType::UniqueId => String::from_str("::usdt::UniqueId"),
            DataType::Serializable(inner) => inner.clone(),
        }
    }
}

/// The shape of the Rust type written for a serialized probe argument, as
/// far as the check of a probe macro's arguments goes.
#[derive(Clone, Copy, Debug, PartialEq, Eq, Structural)]
pub enum TypeShape {
    /// A shared reference to a slice, `&[T]`.
    SliceRef,
    /// Any other reference, `&T`.
    OtherRef,
    /// A slice, `[T]`.
    Slice,
    /// An array, `[T; N]`.
    Array,
    /// A path, such as `Vec<T>` or `my::Type`.
    Path,
    /// Any other type.
    Other,
}

/// What a value passed for a probe argument must be, so that the probe
/// macro accepts it.
#[derive(Clone, Copy, Debug, PartialEq, Eq, Structural)]
pub enum TypeCheck {
    /// Anything that is `AsRef<str>`.
    AsRefStr,
    /// Anything that is `AsRef<[T]>`, for the element type `T`.
    AsRefSlice,
    /// Anything that borrows as the type behind the reference.
    BorrowReferent,
    /// Anything that borrows as the type itself.
    BorrowType,
    /// Exactly the type as written.
    Exact,
    /// Anything that borrows as the argument's Rust type.
    BorrowRustType,
}

/// The check for an argument of type `t`; `shape` is the shape of the Rust
/// type written for it, which matters for a serialized argument alone.
pub open spec fn type_check_of(t: DataType, shape: TypeShape) -> TypeCheck {
    match t {
        DataType::Serializable(_) => match shape {
            TypeShape::SliceRef => TypeCheck::AsRefSlice,
            TypeShape::OtherRef => TypeCheck::BorrowReferent,
            TypeShape::Slice => TypeCheck::AsRefSlice,
            TypeShape::Array => TypeCheck::AsRefSlice,
            TypeShape::Path => TypeCheck::BorrowType,
            TypeShape::Other => TypeCheck::Exact,
        },
        DataType::Native(NativeDataType::String) => TypeCheck::AsRefStr,
        _ => TypeCheck::BorrowRustType,
    }
}

/// Choose how a probe macro checks an argument of type `t`, whose Rust type
/// has the shape `shape`: strings as `AsRef<str>`, slices and arrays as
/// `AsRef` of a slice, references and paths by what they borrow as, and
/// other types exactly.
pub fn type_check_for(t: &DataType, shape: TypeShape) -> (r: TypeCheck)
    ensures
        r == type_check_of(*t, shape),
{
    match t {
        DataType::Serializable(_) => match shape {
            TypeShape::SliceRef => TypeCheck::AsRefSlice,
            TypeShape::OtherRef => TypeCheck::BorrowReferent,
            TypeShape::Slice => TypeCheck::AsRefSlice,
            TypeShape::Array => TypeCheck::AsRefSlice,
            TypeShape::Path => TypeCheck::BorrowType,
            TypeShape::Other => TypeCheck::Exact,
        },
        DataType::Native(NativeDataType::String) => TypeCheck::AsRefStr,
        _ => TypeCheck::BorrowRustType,
    }
}

/// Strings joined with `sep` between each two.
pub open spec fn joined(items: Seq<Seq<char>>, sep: Seq<char>) -> Seq<char>
    decreases items.len(),
{
    if items.len() == 0 {
        seq![]
    } else if items.len() == 1 {
        items[0]
    } else {
        joined(items.drop_last(), sep) + sep + items.last()
    }
}

/// A single DTrace probe.
#[derive(Clone, Debug)]
pub struct Probe {
    pub name: String,
    pub types: Vec<DataType>,
}

/// The D source of a probe: `probe name(type, ...);`.
pub open spec fn probe_source(name: Seq<char>, types: Seq<DataType>) -> Seq<char> {
    "probe "@ + name + "("@ + joined(types.map_values(|t: DataType| c_type_of(t)), ", "@) + ");"@
}

impl Probe {
    /// The representation of this probe in D source code.
    pub fn to_d_source(&self) -> (s: String)
        ensures
            s@ == probe_source(self.name@, self.types@),
    {
        let ghost cs = self.types@.map_values(|t: DataType| c_type_of(t));
        let mut list = String::new();
        let mut k: usize = 0;
        while k < self.types.len()
            invariant
                0 <= k <= self.types@.len(),
                cs == self.types@.map_values(|t: DataType| c_type_of(t)),
                list@ == joined(cs.take(k as int), ", "@),
            decreases self.types@.len() - k,
        {
            if k > 0 {
                list.append(", ");
            }
            let c = self.types[k].to_c_type();
            list.append(c.as_str());
            proof {
                assert(cs.take(k + 1).drop_last() =~= cs.take(k as int));
                if k == 0 {
                    assert(cs.take(1) =~= seq![cs[0]]);
                }
            }
            k = k + 1;
        }
        proof {
            assert(cs.take(self.types@.len() as int) =~= cs);
        }
        let mut s = String::from_str("probe ");
        s.append(self.name.as_str());
        s.append("(");
        s.append(list.as_str());
        s.append(");");
        s
    }
}

/// A single DTrace provider, with a collection of probes.
#[derive(Clone, Debug)]
pub struct Provider {
    pub name: String,
    pub probes: Vec<Probe>,
    /// The `use` items of the module that defines the provider, as source text.
    pub use_statements: Vec<String>,
}

/// The D source of a provider: its probes, one per line, each indented by a tab.
pub open spec fn provider_source(name: Seq<char>, probes: Seq<Probe>) -> Seq<char> {
    "provider "@ + name + " {\n"@ + joined(
        probes.map_values(|p: Probe| seq!['\t'] + probe_source(p.name@, p.types@)),
        "\n"@,
    ) + "\n};"@
}

impl Provider {
    /// The representation of this provider in D source code.
    pub fn to_d_source(&self) -> (s: String)
        ensures
            s@ == provider_source(self.name@, self.probes@),
    {
        let ghost ls = self.probes@.map_values(|p: Probe| seq!['\t'] + probe_source(p.name@, p.types@));
        let mut list = String::new();
        let mut k: usize = 0;
        while k < self.probes.len()
            invariant
                0 <= k <= self.probes@.len(),
                ls == self.probes@.map_values(|p: Probe| seq!['\t'] + probe_source(p.name@, p.types@)),
                list@ == joined(ls.take(k as int), "\n"@),
            decreases self.probes@.len() - k,
        {
            proof {
                reveal_strlit("\t");
            }
            if k > 0 {
                list.append("\n");
            }
            list.append("\t");
            let p = self.probes[k].to_d_source();
            list.append(p.as_str());
            proof {
                assert(ls.take(k + 1).drop_last() =~= ls.take(k as int));
                if k == 0 {
                    assert(ls.take(1) =~= seq![ls[0]]);
                }
            }
            k = k + 1;
        }
        proof {
            assert(ls.take(self.probes@.len() as int) =~= ls);
        }
        let mut s = String::from_str("provider ");
        s.append(self.name.as_str());
        s.append(" {\n");
        s.append(list.as_str());
        s.append("\n};");
        s
    }
}

// ---------------------------------------------------------------------------
// From the definitions that a D provider file gives
// ---------------------------------------------------------------------------

/// The probe-macro type of each type of a D definition.
pub open spec fn natives(ts: Seq<NativeDataType>) -> Seq<DataType> {
    ts.map_values(|t: NativeDataType| DataType::Native(t))
}

/// A probe as a D provider file defines it: its name, and its types as native.
pub open spec fn probe_from_view(p: Probe, q: ProbeView) -> bool {
    p.name@ == q.name && p.types@ == natives(q.types)
}

impl DataType {
    /// A type that D knows.
    pub fn from(t: NativeDataType) -> (d: Self)
        ensures
            d == DataType::Native(t),
    {
        DataType::Native(t)
    }
}

impl Probe {
    /// The probe of a D provider file, with its types as native types.
    pub fn from(p: &ParsedProbe) -> (r: Self)
        ensures
            probe_from_view(r, p@),
    {
        let ts = p.types();
        let mut types: Vec<DataType> = Vec::new();
        let mut k: usize = 0;
        while k < ts.len()
            invariant
                0 <= k <= ts@.len(),
                types@ == natives(ts@.take(k as int)),
            decreases ts@.len() - k,
        {
            types.push(DataType::from(ts[k]));
            proof {
                assert(natives(ts@.take(k + 1)) =~= natives(ts@.take(k as int)).push(DataType::Native(ts@[k as int])));
            }
            k = k + 1;
        }
        proof {
            assert(ts@.take(ts@.len() as int) =~= ts@);
        }
        Probe { name: p.name().clone(), types }
    }
}

impl Provider {
    /// The provider of a D provider file, with no `use` items.
    pub fn from(p: &ParsedProvider) -> (r: Self)
        ensures
            r.name@ == p@.name,
            r.probes@.len() == p@.probes.len(),
            forall|i: int| 0 <= i < r.probes@.len() ==> probe_from_view(#[trigger] r.probes@[i], p@.probes[i]),
            r.use_statements@.len() == 0,
    {
        let ps = p.probes();
        let mut probes: Vec<Probe> = Vec::new();
        let mut k: usize = 0;
        while k < ps.len()
            invariant
                0 <= k <= ps@.len(),
                ps@.map_values(|q: ParsedProbe| q@) == p@.probes,
                probes@.len() == k,
                forall|i: int| 0 <= i < k ==> probe_from_view(#[trigger] probes@[i], p@.probes[i]),
            decreases ps@.len() - k,
        {
            let q = Probe::from(&ps[k]);
            proof {
                assert(ps@[k as int]@ == p@.probes[k as int]);
            }
            probes.push(q);
            k = k + 1;
        }
        Provider { name: p.name().clone(), probes, use_statements: Vec::new() }
    }
}

// ---------------------------------------------------------------------------
// Names of generated items
// ---------------------------------------------------------------------------

/// The name of the macro that fires probe `probe` of provider `provider`:
/// the format with `{provider}` and then `{probe}` replaced by the names, or
/// the two names joined by `_` where there is no format.
pub open spec fn probe_macro_name(format: Option<Seq<char>>, provider: Seq<char>, probe: Seq<char>) -> Seq<char> {
    match format {
        Some(f) => replace_all(replace_all(f, "{provider}"@, provider), "{probe}"@, probe),
        None => provider + "_"@ + probe,
    }
}

/// The name of the macro that fires probe `probe_name` of provider
/// `provider_name`, as the configured format gives it.
pub fn format_probe(format: &Option<String>, provider_name: &str, probe_name: &str) -> (r: String)
    ensures
        r@ == probe_macro_name(
            match format {
                Some(f) => Some(f@),
                None => None,
            },
            provider_name@,
            probe_name@,
        ),
{
    proof {
        reveal_strlit("{provider}");
        reveal_strlit("{probe}");
        reveal_strlit("_");
    }
    match format {
        Some(f) => {
            let a = replace_str(f.as_str(), "{provider}", provider_name);
            replace_str(a.as_str(), "{probe}", probe_name)
        },
        None => {
            let mut r = String::from_str(provider_name);
            r.append("_");
            r.append(probe_name);
            r
        },
    }
}

/// The name of the private module that holds the items of `provider`.
pub fn module_ident_for_provider(provider: &Provider) -> (r: String)
    ensures
        r@ == "__usdt_private_"@ + provider.name@,
{
    let mut r = String::from_str("__usdt_private_");
    r.append(provider.name.as_str());
    r
}

} // verus!
