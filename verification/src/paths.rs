//! Resolution of the application's data and configuration directories,
//! and the markdown file-name rule.

use vstd::prelude::*;

verus! {

#[verifier::external_type_specification]
#[verifier::external_body]
pub struct ExProjectDirs(directories::ProjectDirs);

/// Relies on `directories::ProjectDirs::from`: looks the project's
/// directories up for this qualifier, organization and application name;
/// `None` when the environment yields no home directory. The result
/// depends on the environment, so nothing is promised of it.
#[verifier::external_body]
fn project_dirs_from(qualifier: &str, organization: &str, application: &str) -> (r: Option<
    directories::ProjectDirs,
>) {
    directories::ProjectDirs::from(qualifier, organization, application)
}

/// Relies on `directories::ProjectDirs::data_local_dir`: hands back the
/// project's local data directory as a plain string. The path was derived
/// from the environment, so nothing is promised of it.
#[verifier::external_body]
fn data_local_dir_of(dirs: &directories::ProjectDirs) -> (r: String) {
    dirs.data_local_dir().display().to_string()
}

/// Relies on `directories::ProjectDirs::config_local_dir`: hands back the
/// project's local configuration directory as a plain string. The path was
/// derived from the environment, so nothing is promised of it.
#[verifier::external_body]
fn config_local_dir_of(dirs: &directories::ProjectDirs) -> (r: String) {
    dirs.config_local_dir().display().to_string()
}

/// Picks a directory: the explicit override when one is set, else the
/// discovered project directory, else the fallback.
pub fn resolve_dir(preferred: Option<String>, discovered: Option<String>, fallback: &str) -> (r:
    String)
    ensures
        r@ == (match preferred {
            Some(p) => p@,
            None => match discovered {
                Some(d) => d@,
                None => fallback@,
            },
        }),
{
    match preferred {
        Some(p) => p,
        None => match discovered {
            Some(d) => d,
            None => fallback.to_owned(),
        },
    }
}

/// The directory that holds the application's data files.
///
/// `data_folder` is the explicit override, read from the environment by
/// the embedding program; `app_name` is the lowercased project name.
/// Without an override the environment's project data directory is used
/// when there is one, else `./.data`.
pub fn get_data_dir(data_folder: Option<String>, app_name: &str) -> (r: String)
    ensures
        data_folder matches Some(p) ==> r@ == p@,
{
    let discovered = match project_dirs_from("com", "kdheepak", app_name) {
        Some(dirs) => Some(data_local_dir_of(&dirs)),
        None => None,
    };
    resolve_dir(data_folder, discovered, "./.data")
}

/// The directory that holds the application's configuration files.
///
/// `config_folder` is the explicit override, read from the environment by
/// the embedding program; `app_name` is the lowercased project name.
/// Without an override the environment's project configuration directory
/// is used when there is one, else `./.config`.
pub fn get_config_dir(config_folder: Option<String>, app_name: &str) -> (r: String)
    ensures
        config_folder matches Some(p) ==> r@ == p@,
{
    let discovered = match project_dirs_from("com", "kdheepak", app_name) {
        Some(dirs) => Some(config_local_dir_of(&dirs)),
        None => None,
    };
    resolve_dir(config_folder, discovered, "./.config")
}

/// The file extensions accepted as markdown.
pub open spec fn spec_is_markdown_ext(s: Seq<char>) -> bool {
    s == "md"@ || s == "qmd"@ || s == "rmd"@ || s == "markdown"@
}

/// Decides the markdown file-name rule on a file extension: exactly the
/// extensions `md`, `qmd`, `rmd` and `markdown` are accepted.
pub fn is_markdown_ext(ext: &String) -> (r: bool)
    ensures
        r == spec_is_markdown_ext(ext@),
{
    let md: String = "md".to_owned();
    let qmd: String = "qmd".to_owned();
    let rmd: String = "rmd".to_owned();
    let markdown: String = "markdown".to_owned();
    *ext == md || *ext == qmd || *ext == rmd || *ext == markdown
}

} // verus!
