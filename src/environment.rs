use vstd::prelude::*;
use vstd::string::StringExecFns;

verus! {

/// Name of the variable that names the activated interpreter environment.
pub open spec fn venv_variable() -> Seq<char> {
    "VIRTUAL_ENV"@
}

/// The name of the development-mode environment variable.
pub fn venv_variable_name() -> (r: String)
    ensures
        r@ == venv_variable(),
{
    String::from_str("VIRTUAL_ENV")
}

/// The leading `\\?\` that marks a verbatim (UNC) path on Windows.
pub open spec fn has_verbatim_prefix(p: Seq<char>) -> bool {
    p.len() >= 4 && p.take(4) == seq!['\\', '\\', '?', '\\']
}

/// `r` is `p` with platform path-prefix quirks taken off: a path without a
/// verbatim prefix stays as it is; one with it may lose exactly that prefix.
pub open spec fn is_simplified(p: Seq<char>, r: Seq<char>) -> bool {
    if has_verbatim_prefix(p) {
        r == p || r == p.skip(4)
    } else {
        r == p
    }
}

/// Relies on dunce::simplified, which hands a path back unchanged or, on
/// Windows and where it is safe, without its leading `\\?\`; it does no I/O.
#[verifier::external_body]
fn simplified(path: &str) -> (r: String)
    ensures
        is_simplified(path@, r@),
{
    dunce::simplified(std::path::Path::new(path)).to_string_lossy().into_owned()
}

/// The environment that the embedded interpreter runs against.
pub enum EnvironmentDescriptor {
    /// An externally prepared and activated virtual environment.
    DevVenv(String),
    /// The resource directory of a packaged, self-contained bundle.
    StandaloneBundle(String),
}

/// Why no environment could be resolved.
pub enum ConfigurationError {
    /// Development mode without the environment variable; `detail` says why
    /// it could not be read.
    MissingVariable { variable: String, detail: String },
    /// Standalone mode where the resource directory could not be determined.
    ResourceDirUnavailable { detail: String },
}

impl ConfigurationError {
    /// The operator-facing text of the error.
    pub open spec fn message_view(&self) -> Seq<char> {
        match self {
            ConfigurationError::MissingVariable { variable, detail } =>
                "The app is running in tauri dev mode, please activate the python virtual environment first or set the `"@
                    + variable@ + "` environment variable: "@ + detail@,
            ConfigurationError::ResourceDirUnavailable { detail } =>
                "failed to get resource dir: "@ + detail@,
        }
    }

    pub fn message(&self) -> (r: String)
        ensures
            r@ == self.message_view(),
    {
        match self {
            ConfigurationError::MissingVariable { variable, detail } => {
                let mut r = String::from_str(
                    "The app is running in tauri dev mode, please activate the python virtual environment first or set the `",
                );
                r.append(variable.as_str());
                r.append("` environment variable: ");
                r.append(detail.as_str());
                r
            },
            ConfigurationError::ResourceDirUnavailable { detail } => {
                let mut r = String::from_str("failed to get resource dir: ");
                r.append(detail.as_str());
                r
            },
        }
    }
}

/// What the host learned about its deployment mode: in development mode the
/// value of the environment variable (or why it could not be read), otherwise
/// the packaged resource directory (or why it could not be determined).
pub enum EnvironmentProbe {
    Development { venv: Result<String, String> },
    Standalone { resource_dir: Result<String, String> },
}

/// `r` is what resolving `probe` gives.
pub open spec fn resolves_to(
    probe: EnvironmentProbe,
    r: Result<EnvironmentDescriptor, ConfigurationError>,
) -> bool {
    match probe {
        EnvironmentProbe::Development { venv: Ok(dir) } => r == Ok::<
            EnvironmentDescriptor,
            ConfigurationError,
        >(EnvironmentDescriptor::DevVenv(dir)),
        EnvironmentProbe::Development { venv: Err(why) } => {
            &&& r matches Err(ConfigurationError::MissingVariable { variable, detail })
            &&& variable@ == venv_variable()
            &&& detail == why
        },
        EnvironmentProbe::Standalone { resource_dir: Ok(dir) } => {
            &&& r matches Ok(EnvironmentDescriptor::StandaloneBundle(path))
            &&& is_simplified(dir@, path@)
        },
        EnvironmentProbe::Standalone { resource_dir: Err(why) } => r == Err::<
            EnvironmentDescriptor,
            ConfigurationError,
        >(ConfigurationError::ResourceDirUnavailable { detail: why }),
    }
}

/// Decides the environment descriptor for the probed deployment mode.
pub fn resolve(probe: EnvironmentProbe) -> (r: Result<EnvironmentDescriptor, ConfigurationError>)
    ensures
        resolves_to(probe, r),
{
    match probe {
        EnvironmentProbe::Development { venv: Ok(dir) } => Ok(EnvironmentDescriptor::DevVenv(dir)),
        EnvironmentProbe::Development { venv: Err(why) } => Err(
            ConfigurationError::MissingVariable {
                variable: venv_variable_name(),
                detail: why,
            },
        ),
        EnvironmentProbe::Standalone { resource_dir: Ok(dir) } => {
            let path = simplified(dir.as_str());
            Ok(EnvironmentDescriptor::StandaloneBundle(path))
        },
        EnvironmentProbe::Standalone { resource_dir: Err(why) } => Err(
            ConfigurationError::ResourceDirUnavailable { detail: why },
        ),
    }
}

/// A development probe with the variable set resolves to that directory as a
/// virtual environment, never to a bundle.
pub proof fn set_variable_gives_dev_venv(
    dir: String,
    r: Result<EnvironmentDescriptor, ConfigurationError>,
)
    requires
        resolves_to(EnvironmentProbe::Development { venv: Ok(dir) }, r),
    ensures
        r matches Ok(EnvironmentDescriptor::DevVenv(p)) && p == dir,
        !(r matches Ok(EnvironmentDescriptor::StandaloneBundle(_))),
{
}

/// A development probe with the variable unset fails with a configuration
/// error whose message names the variable.
pub proof fn unset_variable_is_named(why: String, r: Result<EnvironmentDescriptor, ConfigurationError>)
    requires
        resolves_to(EnvironmentProbe::Development { venv: Err(why) }, r),
    ensures
        r matches Err(e) && exists|i: int|
            0 <= i && i + venv_variable().len() <= e.message_view().len() && #[trigger] e.message_view().subrange(
                i,
                i + venv_variable().len(),
            ) == venv_variable(),
{
    let e = r->Err_0;
    let head = "The app is running in tauri dev mode, please activate the python virtual environment first or set the `"@;
    let m = e.message_view();
    let i = head.len() as int;
    assert(m.subrange(i, i + venv_variable().len()) =~= venv_variable());
}

} // verus!
