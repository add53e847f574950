//! Addresses of raw files on GitHub, and the two list documents that
//! a configuration falls back to.

use vstd::prelude::*;
use vstd::string::StringExecFns;

verus! {

/// The address of `path` on the `master` branch of `user`'s `repository`.
pub open spec fn raw_file_url(user: Seq<char>, repository: Seq<char>, path: Seq<char>) -> Seq<char> {
    "https://raw.githubusercontent.com/"@ + user + "/"@ + repository + "/master/"@ + path
}

/// The address of the list of schemes that is used when a configuration
/// names none.
pub open spec fn scheme_list_url() -> Seq<char> {
    raw_file_url("chriskempson"@, "base16-schemes-source"@, "list.yaml"@)
}

/// The address of the list of templates that is used when a
/// configuration names none.
pub open spec fn templates_list_url() -> Seq<char> {
    raw_file_url("chriskempson"@, "base16-templates-source"@, "list.yaml"@)
}

/// Builds the address of a raw file on GitHub.
pub fn github_file_url(user: &str, repository: &str, url: &str) -> (res: String)
    ensures
        res@ == raw_file_url(user@, repository@, url@),
{
    let mut res = String::from_str("https://raw.githubusercontent.com/");
    res.append(user);
    res.append("/");
    res.append(repository);
    res.append("/master/");
    res.append(url);
    res
}

/// The address of the upstream list of schemes.
pub fn default_scheme_list_url() -> (res: String)
    ensures
        res@ == scheme_list_url(),
        res@
            == "https://raw.githubusercontent.com/chriskempson/base16-schemes-source/master/list.yaml"@,
{
    proof {
        default_urls_written_out();
    }
    github_file_url("chriskempson", "base16-schemes-source", "list.yaml")
}

/// The address of the upstream list of templates.
pub fn default_templates_list_url() -> (res: String)
    ensures
        res@ == templates_list_url(),
        res@
            == "https://raw.githubusercontent.com/chriskempson/base16-templates-source/master/list.yaml"@,
{
    proof {
        default_urls_written_out();
    }
    github_file_url("chriskempson", "base16-templates-source", "list.yaml")
}

/// The two upstream addresses, written out: to compute them takes
/// nothing but the joining of fixed texts.
pub proof fn default_urls_written_out()
    ensures
        scheme_list_url()
            == "https://raw.githubusercontent.com/chriskempson/base16-schemes-source/master/list.yaml"@,
        templates_list_url()
            == "https://raw.githubusercontent.com/chriskempson/base16-templates-source/master/list.yaml"@,
{
    reveal_strlit("https://raw.githubusercontent.com/");
    reveal_strlit("/");
    reveal_strlit("/master/");
    reveal_strlit("chriskempson");
    reveal_strlit("base16-schemes-source");
    reveal_strlit("base16-templates-source");
    reveal_strlit("list.yaml");
    reveal_strlit("https://raw.githubusercontent.com/chriskempson/base16-schemes-source/master/list.yaml");
    reveal_strlit("https://raw.githubusercontent.com/chriskempson/base16-templates-source/master/list.yaml");
    assert(scheme_list_url()
        =~= "https://raw.githubusercontent.com/chriskempson/base16-schemes-source/master/list.yaml"@);
    assert(templates_list_url()
        =~= "https://raw.githubusercontent.com/chriskempson/base16-templates-source/master/list.yaml"@);
}

} // verus!
