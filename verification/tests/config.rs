use b16m::config::Application;
use b16m::config::ApplicationDocument;
use b16m::config::Config;
use b16m::config::ConfigDocument;
use b16m::config::File;
use b16m::config::FileDocument;
use b16m::failure::Failure;
use b16m::table::Table;

const SCHEMES: &str =
    "https://raw.githubusercontent.com/chriskempson/base16-schemes-source/master/list.yaml";
const TEMPLATES: &str =
    "https://raw.githubusercontent.com/chriskempson/base16-templates-source/master/list.yaml";

fn text(s: &str) -> String {
    s.to_string()
}

fn words(list: &[&str]) -> Vec<String> {
    list.iter().map(|w| w.to_string()).collect()
}

fn sample() -> Config {
    let mut document = ConfigDocument::default();
    document.scheme = Some(text("ocean"));
    document.scheme_repository_url = Some(text("https://example.org/ocean"));
    document.schemes_list_url = Some(text("https://example.org/schemes.yaml"));
    Config::from_document(&document)
}

#[test]
fn empty_document_resolves_to_defaults() {
    let config = Config::from_document(&ConfigDocument::default());
    assert_eq!(config.scheme, "");
    assert_eq!(config.scheme_repository_url, "");
    assert_eq!(config.schemes_list_url, SCHEMES);
    assert_eq!(config.templates_list_url, TEMPLATES);
    assert_eq!(config.applications.len(), 0);
}

#[test]
fn present_keys_are_kept() {
    let mut document = ConfigDocument::default();
    document.scheme = Some(text("gruvbox-dark"));
    document.scheme_repository_url = Some(text("https://example.org/gruvbox"));
    document.schemes_list_url = Some(text("https://example.org/schemes.yaml"));
    document.templates_list_url = Some(text("https://example.org/templates.yaml"));
    let config = Config::from_document(&document);
    assert_eq!(config.scheme, "gruvbox-dark");
    assert_eq!(config.scheme_repository_url, "https://example.org/gruvbox");
    assert_eq!(config.schemes_list_url, "https://example.org/schemes.yaml");
    assert_eq!(config.templates_list_url, "https://example.org/templates.yaml");
}

#[test]
fn one_absent_list_address_leaves_the_other_alone() {
    let mut document = ConfigDocument::default();
    document.templates_list_url = Some(text("https://example.org/templates.yaml"));
    let config = Config::from_document(&document);
    assert_eq!(config.schemes_list_url, SCHEMES);
    assert_eq!(config.templates_list_url, "https://example.org/templates.yaml");
}

#[test]
fn an_empty_list_address_is_not_an_absent_one() {
    let mut document = ConfigDocument::default();
    document.schemes_list_url = Some(text(""));
    document.templates_list_url = Some(text(""));
    let config = Config::from_document(&document);
    assert_eq!(config.schemes_list_url, "");
    assert_eq!(config.templates_list_url, "");
}

#[test]
fn applications_and_files_resolve_name_by_name() {
    let mut files: Table<FileDocument> = Table::new();
    let mut colors = FileDocument::default();
    colors.destination = Some(text("/home/me/.config/term/colors"));
    colors.mode = Some(text("0644"));
    colors.start_marker = Some(text("# begin"));
    colors.end_marker = Some(text("# end"));
    files.insert(text("colors"), colors);
    files.insert(text("bare"), FileDocument::default());

    let mut term = ApplicationDocument::default();
    term.hook = Some(text("pkill -USR1 term"));
    term.template_repository_url = Some(text("https://example.org/term"));
    term.files = Some(files);

    let mut applications: Table<ApplicationDocument> = Table::new();
    applications.insert(text("term"), term);
    applications.insert(text("editor"), ApplicationDocument::default());

    let mut document = ConfigDocument::default();
    document.applications = Some(applications);
    let config = Config::from_document(&document);

    assert_eq!(config.applications.len(), 2);
    let term = config.applications.get("term").unwrap();
    assert_eq!(term.hook, "pkill -USR1 term");
    assert_eq!(term.template_repository_url, "https://example.org/term");
    assert_eq!(term.files.len(), 2);
    let colors = term.files.get("colors").unwrap();
    assert_eq!(colors.destination, "/home/me/.config/term/colors");
    assert_eq!(colors.mode, "0644");
    assert_eq!(colors.start_marker, "# begin");
    assert_eq!(colors.end_marker, "# end");
    let bare = term.files.get("bare").unwrap();
    assert_eq!(bare.destination, "");
    assert_eq!(bare.mode, "");
    assert_eq!(bare.start_marker, "");
    assert_eq!(bare.end_marker, "");
    let editor = config.applications.get("editor").unwrap();
    assert_eq!(editor.hook, "");
    assert_eq!(editor.template_repository_url, "");
    assert_eq!(editor.files.len(), 0);
    assert!(config.applications.get("shell").is_none());
}

#[test]
fn application_without_keys_resolves_to_defaults() {
    let application = Application::from_document(&ApplicationDocument::default());
    assert_eq!(application.hook, "");
    assert_eq!(application.template_repository_url, "");
    assert_eq!(application.files.len(), 0);
}

#[test]
fn file_with_some_keys_keeps_them() {
    let mut document = FileDocument::default();
    document.mode = Some(text("0600"));
    let file = File::from_document(&document);
    assert_eq!(file.destination, "");
    assert_eq!(file.mode, "0600");
    assert_eq!(file.start_marker, "");
    assert_eq!(file.end_marker, "");
}

#[test]
fn default_values_are_empty() {
    let config = Config::default();
    assert_eq!(config.scheme, "");
    assert_eq!(config.scheme_repository_url, "");
    assert_eq!(config.schemes_list_url, "");
    assert_eq!(config.templates_list_url, "");
    assert_eq!(config.applications.len(), 0);
    let application = Application::default();
    assert_eq!(application.hook, "");
    assert_eq!(application.template_repository_url, "");
    assert_eq!(application.files.len(), 0);
    let file = File::default();
    assert_eq!(file.destination, "");
    assert_eq!(file.mode, "");
    assert_eq!(file.start_marker, "");
    assert_eq!(file.end_marker, "");
}

#[test]
fn default_documents_hold_no_key() {
    let config = ConfigDocument::default();
    assert!(config.scheme.is_none());
    assert!(config.scheme_repository_url.is_none());
    assert!(config.schemes_list_url.is_none());
    assert!(config.templates_list_url.is_none());
    assert!(config.applications.is_none());
    let application = ApplicationDocument::default();
    assert!(application.hook.is_none());
    assert!(application.template_repository_url.is_none());
    assert!(application.files.is_none());
    let file = FileDocument::default();
    assert!(file.destination.is_none());
    assert!(file.mode.is_none());
    assert!(file.start_marker.is_none());
    assert!(file.end_marker.is_none());
}

#[test]
fn no_argument_changes_nothing() {
    let config = sample().apply_arguments(&words(&["b16m"])).unwrap();
    assert_eq!(config.scheme, "ocean");
    assert_eq!(config.scheme_repository_url, "https://example.org/ocean");
    assert_eq!(config.schemes_list_url, "https://example.org/schemes.yaml");
    assert_eq!(config.templates_list_url, TEMPLATES);
}

#[test]
fn one_argument_changes_the_scheme_only() {
    let config = sample().apply_arguments(&words(&["b16m", "mocha"])).unwrap();
    assert_eq!(config.scheme, "mocha");
    assert_eq!(config.scheme_repository_url, "https://example.org/ocean");
    assert_eq!(config.schemes_list_url, "https://example.org/schemes.yaml");
    assert_eq!(config.templates_list_url, TEMPLATES);
}

#[test]
fn two_arguments_change_scheme_and_repository() {
    let config = sample()
        .apply_arguments(&words(&["b16m", "mocha", "https://example.org/mocha"]))
        .unwrap();
    assert_eq!(config.scheme, "mocha");
    assert_eq!(config.scheme_repository_url, "https://example.org/mocha");
    assert_eq!(config.schemes_list_url, "https://example.org/schemes.yaml");
    assert_eq!(config.templates_list_url, TEMPLATES);
}

#[test]
fn three_arguments_are_too_many() {
    let res = sample().apply_arguments(&words(&["b16m", "a", "b", "c"]));
    assert!(matches!(res, Err(Failure::TooManyArguments)));
}

#[test]
fn many_arguments_are_too_many() {
    let res = sample().apply_arguments(&words(&["b16m", "a", "b", "c", "d", "e", "f"]));
    assert!(matches!(res, Err(Failure::TooManyArguments)));
}

#[test]
fn a_command_line_without_program_name_is_not_accepted() {
    let res = sample().apply_arguments(&words(&[]));
    assert!(matches!(res, Err(Failure::TooManyArguments)));
}

#[test]
fn an_empty_argument_is_an_argument() {
    let config = sample().apply_arguments(&words(&["b16m", ""])).unwrap();
    assert_eq!(config.scheme, "");
    assert_eq!(config.scheme_repository_url, "https://example.org/ocean");
}
