use b16m::urls::default_scheme_list_url;
use b16m::urls::default_templates_list_url;
use b16m::urls::github_file_url;

#[test]
fn github_file_url_joins_user_repository_and_path() {
    assert_eq!(
        github_file_url("elwinar", "b16m", "README.md"),
        "https://raw.githubusercontent.com/elwinar/b16m/master/README.md"
    );
}

#[test]
fn github_file_url_keeps_empty_parts() {
    assert_eq!(github_file_url("", "", ""), "https://raw.githubusercontent.com///master/");
}

#[test]
fn github_file_url_keeps_slashes_in_the_path() {
    assert_eq!(
        github_file_url("a", "b", "dir/file.yaml"),
        "https://raw.githubusercontent.com/a/b/master/dir/file.yaml"
    );
}

#[test]
fn default_scheme_list_url_is_the_upstream_list() {
    assert_eq!(
        default_scheme_list_url(),
        "https://raw.githubusercontent.com/chriskempson/base16-schemes-source/master/list.yaml"
    );
}

#[test]
fn default_templates_list_url_is_the_upstream_list() {
    assert_eq!(
        default_templates_list_url(),
        "https://raw.githubusercontent.com/chriskempson/base16-templates-source/master/list.yaml"
    );
}
