//! Building probe macros from a provider file in a build script.

use vstd::prelude::*;
use vstd::string::*;

verus! {

/// Settings for compiling providers into probe macros.
#[derive(Debug)]
pub struct CompileProvidersConfig {
    /// The provider whose probes are being compiled.
    pub provider: Option<String>,
    /// The format of probe macro names; `{provider}` and `{probe}` in it are
    /// replaced by the names of the provider and the probe.
    pub probe_format: Option<String>,
    /// The module that holds the generated probe macros.
    pub module: Option<String>,
}

impl CompileProvidersConfig {
    /// A configuration that sets nothing.
    pub fn new() -> (c: Self)
        ensures
            c.provider is None,
            c.probe_format is None,
            c.module is None,
    {
        CompileProvidersConfig { provider: None, probe_format: None, module: None }
    }

    /// The configuration for compiling provider `name`: the provider set to
    /// `name`, the same format, and the module as set, else named after the
    /// provider.
    pub fn for_provider(&self, name: &str) -> (c: Self)
        ensures
            c.provider matches Some(p) && p@ == name@,
            match self.probe_format {
                Some(f) => c.probe_format matches Some(g) && g@ == f@,
                None => c.probe_format is None,
            },
            match self.module {
                Some(m) => c.module matches Some(n) && n@ == m@,
                None => c.module matches Some(n) && n@ == name@,
            },
    {
        let probe_format = match &self.probe_format {
            Some(f) => Some(String::from_str(f.as_str())),
            None => None,
        };
        let module = match &self.module {
            Some(m) => Some(String::from_str(m.as_str())),
            None => Some(String::from_str(name)),
        };
        CompileProvidersConfig { provider: Some(String::from_str(name)), probe_format, module }
    }

    /// The name of the module that holds the probe macros: the module as
    /// set, else the provider's name; `None` where neither is set.
    pub fn module_name(&self) -> (r: Option<String>)
        ensures
            match (self.module, self.provider) {
                (Some(m), _) => r matches Some(n) && n@ == m@,
                (None, Some(p)) => r matches Some(n) && n@ == p@,
                (None, None) => r is None,
            },
    {
        match &self.module {
            Some(m) => Some(String::from_str(m.as_str())),
            None => match &self.provider {
                Some(p) => Some(String::from_str(p.as_str())),
                None => None,
            },
        }
    }
}

/// The path `path` with its extension set to `ext`, as
/// `std::path::PathBuf::set_extension` leaves it.
pub uninterp spec fn path_with_extension(path: Seq<char>, ext: Seq<char>) -> Seq<char>;

/// Calls `std::path::PathBuf::set_extension` on `path`. The result is
/// named: it is the same for the same path and extension. `set_extension`
/// panics on an extension that holds a path separator, so `ext` holds none.
#[verifier::external_body]
fn set_extension(path: &str, ext: &str) -> (r: String)
    requires
        forall|i: int| 0 <= i < ext@.len() ==> ext@[i] != '/' && ext@[i] != '\\',
    ensures
        r@ == path_with_extension(path@, ext@),
{
    let mut p = std::path::PathBuf::from(path);
    p.set_extension(ext);
    p.to_string_lossy().into_owned()
}

/// Builds DTrace probe macros into Rust code in a build script.
#[derive(Debug)]
pub struct Builder {
    source_file: String,
    out_file: String,
    config: CompileProvidersConfig,
}

/// A builder by its files and settings.
pub struct BuilderView {
    pub source_file: Seq<char>,
    pub out_file: Seq<char>,
    pub provider: Option<Seq<char>>,
    pub probe_format: Option<Seq<char>>,
    pub module: Option<Seq<char>>,
}

pub open spec fn opt_view(o: Option<String>) -> Option<Seq<char>> {
    match o {
        Some(s) => Some(s@),
        None => None,
    }
}

impl View for Builder {
    type V = BuilderView;

    closed spec fn view(&self) -> BuilderView {
        BuilderView {
            source_file: self.source_file@,
            out_file: self.out_file@,
            provider: opt_view(self.config.provider),
            probe_format: opt_view(self.config.probe_format),
            module: opt_view(self.config.module),
        }
    }
}

impl Builder {
    /// A builder for the D provider definition file at `file`. The generated
    /// code goes to a file of the same name with the extension `rs`.
    pub fn new(file: &str) -> (b: Self)
        ensures
            b@.source_file == file@,
            b@.out_file == path_with_extension(file@, "rs"@),
            b@.provider is None,
            b@.probe_format is None,
            b@.module is None,
    {
        let source_file = String::from_str(file);
        proof {
            reveal_strlit("rs");
        }
        let out_file = set_extension(file, "rs");
        Builder { source_file, out_file, config: CompileProvidersConfig::new() }
    }

    /// Set the file name of the generated Rust code; its extension is set to
    /// `rs`.
    pub fn out_file(self, file: &str) -> (b: Self)
        ensures
            b@ == (BuilderView { out_file: path_with_extension(file@, "rs"@), ..self@ }),
    {
        let mut b = self;
        proof {
            reveal_strlit("rs");
        }
        b.out_file = set_extension(file, "rs");
        b
    }

    /// Set the format of the names of the generated probe macros. The format
    /// may hold `{provider}` and `{probe}`, which are replaced by the names of
    /// the provider and the probe.
    pub fn probe_format(self, format: &str) -> (b: Self)
        ensures
            b@ == (BuilderView { probe_format: Some(format@), ..self@ }),
    {
        let mut b = self;
        b.config.probe_format = Some(String::from_str(format));
        b
    }

    /// Set the name of the module that holds the generated probe macros.
    pub fn module(self, module: &str) -> (b: Self)
        ensures
            b@ == (BuilderView { module: Some(module@), ..self@ }),
    {
        let mut b = self;
        b.config.module = Some(String::from_str(module));
        b
    }

    /// The D provider definition file.
    pub fn source_file(&self) -> (r: &String)
        ensures
            r@ == self@.source_file,
    {
        &self.source_file
    }

    /// The file of the generated Rust code.
    pub fn out_file_name(&self) -> (r: &String)
        ensures
            r@ == self@.out_file,
    {
        &self.out_file
    }

    /// The settings for compiling the provider.
    pub fn config(&self) -> (r: &CompileProvidersConfig)
        ensures
            opt_view(r.provider) == self@.provider,
            opt_view(r.probe_format) == self@.probe_format,
            opt_view(r.module) == self@.module,
    {
        &self.config
    }
}

} // verus!
