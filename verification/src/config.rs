//! Choosing a configuration-file path from a command-line argument, an
//! environment value, or a built-in default. The caller reads the argument
//! and the environment and hands the plain values in.

use vstd::prelude::*;

verus! {

/// A path handed in on the command line or through the environment must not
/// be empty.
pub fn validate_conf_path(path: &str) -> (r: Result<(), String>)
    ensures
        r is Ok <==> path@.len() > 0,
        r matches Err(e) ==> e@ == "Configuration file path cannot be empty"@,
{
    if path.is_empty() {
        Err("Configuration file path cannot be empty".to_owned())
    } else {
        Ok(())
    }
}

/// Picks the configuration path: a present command-line argument wins, then a
/// present environment value, then the default `config.toml`. A present but
/// empty argument or environment value is rejected.
pub fn get_conf_path(conf_arg: Option<String>, env_var: Option<String>) -> (r: Result<
    String,
    String,
>)
    ensures
        conf_arg matches Some(a) ==> {
            &&& a@.len() > 0 ==> (r matches Ok(p) && p@ == a@)
            &&& a@.len() == 0 ==> r is Err
        },
        env_var matches Some(e) ==> (conf_arg is None ==> {
            &&& e@.len() > 0 ==> (r matches Ok(p) && p@ == e@)
            &&& e@.len() == 0 ==> r is Err
        }),
        conf_arg is None && env_var is None ==> (r matches Ok(p) && p@ == "config.toml"@),
        r matches Err(m) ==> m@ == "Configuration file path cannot be empty"@,
{
    if let Some(conf_path) = conf_arg {
        match validate_conf_path(conf_path.as_str()) {
            Ok(_) => Ok(conf_path),
            Err(e) => Err(e),
        }
    } else if let Some(env_path) = env_var {
        match validate_conf_path(env_path.as_str()) {
            Ok(_) => Ok(env_path),
            Err(e) => Err(e),
        }
    } else {
        Ok("config.toml".to_owned())
    }
}

/// Picks the configuration path for the application variant: a present
/// command-line argument wins and must not be empty; a present non-empty
/// environment value comes next; everything else falls back to the default
/// `/etc/app/app.conf` (an empty environment value is ignored, not rejected).
pub fn get_config_path(conf_arg: Option<String>, env_var: Option<String>) -> (r: Result<
    String,
    String,
>)
    ensures
        conf_arg matches Some(a) ==> {
            &&& a@.len() > 0 ==> (r matches Ok(p) && p@ == a@)
            &&& a@.len() == 0 ==> (r matches Err(m) && m@
                == "The -c/--conf argument cannot be empty"@)
        },
        conf_arg is None ==> r is Ok,
        env_var matches Some(e) ==> (conf_arg is None ==> {
            &&& e@.len() > 0 ==> (r matches Ok(p) && p@ == e@)
            &&& e@.len() == 0 ==> (r matches Ok(p) && p@ == "/etc/app/app.conf"@)
        }),
        conf_arg is None && env_var is None ==> (r matches Ok(p) && p@ == "/etc/app/app.conf"@),
{
    if let Some(conf) = conf_arg {
        return if conf.as_str().is_empty() {
            Err("The -c/--conf argument cannot be empty".to_owned())
        } else {
            Ok(conf)
        };
    }

    if let Some(app_conf) = env_var {
        if !app_conf.as_str().is_empty() {
            return Ok(app_conf);
        }
    }

    Ok("/etc/app/app.conf".to_owned())
}

} // verus!
