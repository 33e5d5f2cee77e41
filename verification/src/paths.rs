use vstd::prelude::*;
use vstd::string::StringExecFns;
use crate::errors::LaunchError;

verus! {

/// Where the configuration file lives under the home directory.
pub open spec fn default_config_suffix() -> Seq<char> {
    "/.config/cozyboot/cozyboot.toml"@
}

/// Resolves the configuration file location from an optional override
/// and the home directory, where one was found. An override is taken
/// verbatim, with no existence check at this stage; otherwise the file
/// lives at the default place under the home directory; without a home
/// directory there is no default, which is fatal.
pub fn resolve_config_path(override_path: Option<String>, home: Option<String>) -> (r: Result<
    String,
    LaunchError,
>)
    ensures
        override_path matches Some(p) ==> r == Result::<String, LaunchError>::Ok(p),
        override_path is None ==> (home matches Some(h) ==> r matches Ok(s) && s@ == h@
            + default_config_suffix()),
        override_path is None && home is None ==> r == Result::<String, LaunchError>::Err(
            LaunchError::PathResolutionError,
        ),
{
    match override_path {
        Some(p) => Ok(p),
        None => match home {
            Some(h) => {
                let mut s = h;
                s.append("/.config/cozyboot/cozyboot.toml");
                Ok(s)
            },
            None => Err(LaunchError::PathResolutionError),
        },
    }
}

/// Relies on dirs::home_dir: the platform's home directory, where one
/// can be determined. The result depends on the process environment,
/// so nothing is promised of it.
#[verifier::external_body]
fn home_dir_string() -> (r: Option<String>) {
    dirs::home_dir().map(|p| p.to_string_lossy().into_owned())
}

/// Resolves the configuration file location from the optional override
/// alone, looking the home directory up. Whatever the lookup found, an
/// override is returned verbatim; without one the result is the
/// default path under the home directory, recognisable by its suffix,
/// or the resolution failure where no home directory exists.
pub fn config_path(override_path: Option<String>) -> (r: Result<String, LaunchError>)
    ensures
        override_path matches Some(p) ==> r == Result::<String, LaunchError>::Ok(p),
        r matches Err(e) ==> override_path is None && e == LaunchError::PathResolutionError,
        override_path is None ==> (r matches Ok(s) ==> s@.len() >= default_config_suffix().len()
            && s@.subrange(
            s@.len() - default_config_suffix().len(),
            s@.len() as int,
        ) == default_config_suffix()),
{
    match override_path {
        Some(p) => Ok(p),
        None => {
            let home = home_dir_string();
            let r = resolve_config_path(None, home);
            proof {
                if r is Ok {
                    let s = r->Ok_0;
                    assert(s@.subrange(
                        s@.len() - default_config_suffix().len(),
                        s@.len() as int,
                    ) =~= default_config_suffix());
                }
            }
            r
        },
    }
}

} // verus!
