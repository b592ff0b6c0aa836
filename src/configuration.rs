//! The run's configuration: the one root directory to search.
use vstd::prelude::*;

verus! {

/// Why no configuration could be formed from the command line.
#[derive(Debug, Clone, Copy, PartialEq, Eq, Structural)]
pub enum ConfigError {
    /// Neither the flag nor the positional argument gave a root directory.
    MissingRoot,
}

/// The directory chosen for the run.
pub struct Configuration {
    pub directory: String,
}

/// Picks the root directory from the flag form, or failing that from the
/// positional form.
pub fn input_from_either(path_a: Option<String>, path_b: Option<String>) -> (r: Result<
    String,
    ConfigError,
>)
    ensures
        path_a is Some ==> r == Ok::<String, ConfigError>(path_a->Some_0),
        path_a is None && path_b is Some ==> r == Ok::<String, ConfigError>(path_b->Some_0),
        path_a is None && path_b is None ==> r == Err::<String, ConfigError>(ConfigError::MissingRoot),
{
    match path_a {
        Some(a) => Ok(a),
        None => match path_b {
            Some(b) => Ok(b),
            None => Err(ConfigError::MissingRoot),
        },
    }
}

/// Builds the configuration from the two ways of giving the root directory.
pub fn get_configuration(directory: Option<String>, directory_pos: Option<String>) -> (r: Result<
    Configuration,
    ConfigError,
>)
    ensures
        r is Ok <==> (directory is Some || directory_pos is Some),
        directory is Some ==> r is Ok && r->Ok_0.directory == directory->Some_0,
        directory is None && directory_pos is Some ==> r is Ok && r->Ok_0.directory
            == directory_pos->Some_0,
        r is Err ==> r->Err_0 == ConfigError::MissingRoot,
{
    match input_from_either(directory, directory_pos) {
        Ok(d) => Ok(Configuration { directory: d }),
        Err(e) => Err(e),
    }
}

} // verus!
