//! Settings of the engine that hold for the whole process.
//!
//! They are collected in a [`VersoConfig`], which is handed to the runtime when it is set up.
//! Each setting can be given once; a second attempt is refused and changes nothing.

use vstd::prelude::*;
use vstd::string::*;
use crate::error::ConfigError;

verus! {

/// Where the engine is found and how it is started.
#[derive(Clone, Debug)]
pub struct VersoConfig {
    verso_path: Option<String>,
    resource_directory: Option<String>,
    devtools_port: Option<u16>,
}

/// What a [`VersoConfig`] holds.
pub struct VersoConfigView {
    pub verso_path: Option<Seq<char>>,
    pub resource_directory: Option<Seq<char>>,
    pub devtools_port: Option<u16>,
}

impl View for VersoConfig {
    type V = VersoConfigView;

    closed spec fn view(&self) -> VersoConfigView {
        VersoConfigView {
            verso_path: match self.verso_path {
                Some(path) => Some(path@),
                None => None,
            },
            resource_directory: match self.resource_directory {
                Some(path) => Some(path@),
                None => None,
            },
            devtools_port: self.devtools_port,
        }
    }
}

impl VersoConfig {
    /// A configuration in which nothing is set.
    pub fn new() -> (config: VersoConfig)
        ensures
            config@ == (VersoConfigView {
                verso_path: None,
                resource_directory: None,
                devtools_port: None,
            }),
    {
        VersoConfig { verso_path: None, resource_directory: None, devtools_port: None }
    }
}

/// Sets the path of the engine's executable, which must be known before the first webview is
/// created.
pub fn set_verso_path(config: &mut VersoConfig, path: String) -> (r: Result<(), ConfigError>)
    ensures
        old(config)@.verso_path is None ==> r is Ok && final(config)@ == (VersoConfigView {
            verso_path: Some(path@),
            ..old(config)@
        }),
        old(config)@.verso_path is Some ==> r == Err::<(), ConfigError>(ConfigError::AlreadySet)
            && final(config)@ == old(config)@,
{
    if config.verso_path.is_some() {
        return Err(ConfigError::AlreadySet);
    }
    config.verso_path = Some(path);
    Ok(())
}

/// The path of the engine's executable, if it was set.
pub fn get_verso_path(config: &VersoConfig) -> (r: Option<&str>)
    ensures
        match r {
            Some(path) => config@.verso_path == Some(path@),
            None => config@.verso_path is None,
        },
{
    match &config.verso_path {
        Some(path) => Some(path.as_str()),
        None => None,
    }
}

/// Sets the directory that the engine loads its resources from.
pub fn set_verso_resource_directory(config: &mut VersoConfig, path: String) -> (r: Result<
    (),
    ConfigError,
>)
    ensures
        old(config)@.resource_directory is None ==> r is Ok && final(config)@ == (
        VersoConfigView { resource_directory: Some(path@), ..old(config)@ }),
        old(config)@.resource_directory is Some ==> r == Err::<(), ConfigError>(
            ConfigError::AlreadySet,
        ) && final(config)@ == old(config)@,
{
    if config.resource_directory.is_some() {
        return Err(ConfigError::AlreadySet);
    }
    config.resource_directory = Some(path);
    Ok(())
}

/// The directory that the engine loads its resources from, if it was set.
pub fn get_verso_resource_directory(config: &VersoConfig) -> (r: Option<&str>)
    ensures
        match r {
            Some(path) => config@.resource_directory == Some(path@),
            None => config@.resource_directory is None,
        },
{
    match &config.resource_directory {
        Some(path) => Some(path.as_str()),
        None => None,
    }
}

/// Sets the port on which the engine serves its developer tools; 0 lets the engine pick one.
pub fn set_verso_devtools_port(config: &mut VersoConfig, port: u16) -> (r: Result<
    (),
    ConfigError,
>)
    ensures
        old(config)@.devtools_port is None ==> r is Ok && final(config)@ == (VersoConfigView {
            devtools_port: Some(port),
            ..old(config)@
        }),
        old(config)@.devtools_port is Some ==> r == Err::<(), ConfigError>(
            ConfigError::AlreadySet,
        ) && final(config)@ == old(config)@,
{
    if config.devtools_port.is_some() {
        return Err(ConfigError::AlreadySet);
    }
    config.devtools_port = Some(port);
    Ok(())
}

/// The port of the developer tools, if it was set.
pub fn get_verso_devtools_port(config: &VersoConfig) -> (r: Option<u16>)
    ensures
        r == config@.devtools_port,
{
    config.devtools_port
}

/// The file name under which a command is looked for beside the running executable:
/// `name`, with `.exe` after it on Windows.
pub open spec fn spec_command_file_name(name: Seq<char>, windows: bool) -> Seq<char> {
    if windows {
        name + ".exe"@
    } else {
        name
    }
}

/// The file name under which a command is looked for beside the running executable.
pub fn command_file_name(name: &str, windows: bool) -> (r: String)
    ensures
        r@ == spec_command_file_name(name@, windows),
{
    let mut file_name = String::from_str(name);
    if windows {
        file_name.append(".exe");
    }
    file_name
}

} // verus!
