//! The configuration: what a configuration document holds, key by key,
//! and the configuration that it resolves to once every absent key has
//! its default.

use vstd::prelude::*;

use crate::failure::Failure;
use crate::failure::FailureView;
use crate::table::map_of;
use crate::table::Table;
use crate::urls::default_scheme_list_url;
use crate::urls::default_templates_list_url;
use crate::urls::scheme_list_url;
use crate::urls::templates_list_url;

verus! {

/// The text under a key, or the empty text where the key is absent.
pub open spec fn text_or_empty(text: Option<Seq<char>>) -> Seq<char> {
    match text {
        Some(t) => t,
        None => Seq::empty(),
    }
}

/// The text under a key, or `fallback` where the key is absent.
pub open spec fn text_or(text: Option<Seq<char>>, fallback: Seq<char>) -> Seq<char> {
    match text {
        Some(t) => t,
        None => fallback,
    }
}

/// The view of an optional text.
pub open spec fn text_view(text: Option<String>) -> Option<Seq<char>> {
    match text {
        Some(t) => Some(t@),
        None => None,
    }
}

fn copy_or_empty(text: &Option<String>) -> (res: String)
    ensures
        res@ == text_or_empty(text_view(*text)),
{
    match text {
        Some(t) => t.clone(),
        None => String::new(),
    }
}

/// One file of an application, as a document gives it: each key present
/// or absent.
#[derive(Debug)]
pub struct FileDocument {
    pub destination: Option<String>,
    pub mode: Option<String>,
    pub start_marker: Option<String>,
    pub end_marker: Option<String>,
}

/// A `FileDocument` with its texts as sequences of characters.
pub struct FileDocumentView {
    pub destination: Option<Seq<char>>,
    pub mode: Option<Seq<char>>,
    pub start_marker: Option<Seq<char>>,
    pub end_marker: Option<Seq<char>>,
}

impl View for FileDocument {
    type V = FileDocumentView;

    open spec fn view(&self) -> FileDocumentView {
        FileDocumentView {
            destination: text_view(self.destination),
            mode: text_view(self.mode),
            start_marker: text_view(self.start_marker),
            end_marker: text_view(self.end_marker),
        }
    }
}

/// One file that an application's template is rendered into.
#[derive(Debug)]
pub struct File {
    pub destination: String,
    pub mode: String,
    pub start_marker: String,
    pub end_marker: String,
}

/// A `File` with its texts as sequences of characters.
pub struct FileView {
    pub destination: Seq<char>,
    pub mode: Seq<char>,
    pub start_marker: Seq<char>,
    pub end_marker: Seq<char>,
}

impl View for File {
    type V = FileView;

    open spec fn view(&self) -> FileView {
        FileView {
            destination: self.destination@,
            mode: self.mode@,
            start_marker: self.start_marker@,
            end_marker: self.end_marker@,
        }
    }
}

/// The file that a document's entry resolves to.
pub open spec fn resolved_file(document: FileDocumentView) -> FileView {
    FileView {
        destination: text_or_empty(document.destination),
        mode: text_or_empty(document.mode),
        start_marker: text_or_empty(document.start_marker),
        end_marker: text_or_empty(document.end_marker),
    }
}

impl File {
    /// Resolves a document's entry: an absent key becomes the empty text.
    pub fn from_document(document: &FileDocument) -> (res: File)
        ensures
            res@ == resolved_file(document@),
    {
        File {
            destination: copy_or_empty(&document.destination),
            mode: copy_or_empty(&document.mode),
            start_marker: copy_or_empty(&document.start_marker),
            end_marker: copy_or_empty(&document.end_marker),
        }
    }
}

/// The files that a document's files resolve to, name by name.
pub open spec fn resolved_files(
    documents: Option<Map<Seq<char>, FileDocumentView>>,
) -> Map<Seq<char>, FileView> {
    match documents {
        Some(m) => m.map_values(|d: FileDocumentView| resolved_file(d)),
        None => Map::empty(),
    }
}

/// The view of an optional table.
pub open spec fn table_view<V: View>(table: Option<Table<V>>) -> Option<Map<Seq<char>, V::V>> {
    match table {
        Some(t) => Some(t@),
        None => None,
    }
}

fn resolve_files(documents: &Option<Table<FileDocument>>) -> (res: Table<File>)
    ensures
        res@ == resolved_files(table_view(*documents)),
{
    let mut res: Table<File> = Table::new();
    match documents {
        None => {},
        Some(table) => {
            let count = table.len();
            let mut at: usize = 0;
            while at < count
                invariant
                    count == table.entries().len(),
                    at <= count,
                    res@ == resolved_files(Some(map_of(table.entries().take(at as int)))),
                decreases count - at,
            {
                let ghost all = table.entries();
                let ghost done = all.take(at as int);
                match table.entry(at) {
                    Some((name, document)) => {
                        let file = File::from_document(document);
                        proof {
                            assert(all.take(at + 1) =~= done.push(all[at as int]));
                            crate::table::lemma_map_of_push(
                                done,
                                all[at as int].0,
                                all[at as int].1,
                            );
                            assert(resolved_files(Some(map_of(all.take(at + 1))))
                                =~= resolved_files(Some(map_of(done))).insert(name@, file@));
                        }
                        res.insert(name.clone(), file);
                    },
                    None => {},
                }
                at += 1;
            }
            assert(table.entries().take(count as int) =~= table.entries());
        },
    }
    assert(documents is None ==> res@ =~= resolved_files(None));
    res
}

/// One application, as a document gives it: each key present or absent.
#[derive(Debug)]
pub struct ApplicationDocument {
    pub hook: Option<String>,
    pub template_repository_url: Option<String>,
    pub files: Option<Table<FileDocument>>,
}

/// An `ApplicationDocument` with its texts as sequences of characters
/// and its files as a map.
pub struct ApplicationDocumentView {
    pub hook: Option<Seq<char>>,
    pub template_repository_url: Option<Seq<char>>,
    pub files: Option<Map<Seq<char>, FileDocumentView>>,
}

impl View for ApplicationDocument {
    type V = ApplicationDocumentView;

    open spec fn view(&self) -> ApplicationDocumentView {
        ApplicationDocumentView {
            hook: text_view(self.hook),
            template_repository_url: text_view(self.template_repository_url),
            files: table_view(self.files),
        }
    }
}

/// One application that the scheme is applied to: the command that
/// makes it reload, where its template lives, and its files by name.
#[derive(Debug)]
pub struct Application {
    pub hook: String,
    pub template_repository_url: String,
    pub files: Table<File>,
}

/// An `Application` with its texts as sequences of characters and its
/// files as a map.
pub struct ApplicationView {
    pub hook: Seq<char>,
    pub template_repository_url: Seq<char>,
    pub files: Map<Seq<char>, FileView>,
}

impl View for Application {
    type V = ApplicationView;

    open spec fn view(&self) -> ApplicationView {
        ApplicationView {
            hook: self.hook@,
            template_repository_url: self.template_repository_url@,
            files: self.files@,
        }
    }
}

/// The application that a document's entry resolves to.
pub open spec fn resolved_application(document: ApplicationDocumentView) -> ApplicationView {
    ApplicationView {
        hook: text_or_empty(document.hook),
        template_repository_url: text_or_empty(document.template_repository_url),
        files: resolved_files(document.files),
    }
}

impl Application {
    /// Resolves a document's entry: an absent key becomes the empty
    /// text, absent files become no files.
    pub fn from_document(document: &ApplicationDocument) -> (res: Application)
        ensures
            res@ == resolved_application(document@),
    {
        Application {
            hook: copy_or_empty(&document.hook),
            template_repository_url: copy_or_empty(&document.template_repository_url),
            files: resolve_files(&document.files),
        }
    }
}

/// The applications that a document's applications resolve to, name by
/// name.
pub open spec fn resolved_applications(
    documents: Option<Map<Seq<char>, ApplicationDocumentView>>,
) -> Map<Seq<char>, ApplicationView> {
    match documents {
        Some(m) => m.map_values(|d: ApplicationDocumentView| resolved_application(d)),
        None => Map::empty(),
    }
}

fn resolve_applications(documents: &Option<Table<ApplicationDocument>>) -> (res: Table<
    Application,
>)
    ensures
        res@ == resolved_applications(table_view(*documents)),
{
    let mut res: Table<Application> = Table::new();
    match documents {
        None => {},
        Some(table) => {
            let count = table.len();
            let mut at: usize = 0;
            while at < count
                invariant
                    count == table.entries().len(),
                    at <= count,
                    res@ == resolved_applications(Some(map_of(table.entries().take(at as int)))),
                decreases count - at,
            {
                let ghost all = table.entries();
                let ghost done = all.take(at as int);
                match table.entry(at) {
                    Some((name, document)) => {
                        let application = Application::from_document(document);
                        proof {
                            assert(all.take(at + 1) =~= done.push(all[at as int]));
                            crate::table::lemma_map_of_push(
                                done,
                                all[at as int].0,
                                all[at as int].1,
                            );
                            assert(resolved_applications(Some(map_of(all.take(at + 1))))
                                =~= resolved_applications(Some(map_of(done))).insert(
                                name@,
                                application@,
                            ));
                        }
                        res.insert(name.clone(), application);
                    },
                    None => {},
                }
                at += 1;
            }
            assert(table.entries().take(count as int) =~= table.entries());
        },
    }
    assert(documents is None ==> res@ =~= resolved_applications(None));
    res
}

/// A configuration document: each of its keys present or absent.
#[derive(Debug)]
pub struct ConfigDocument {
    pub scheme: Option<String>,
    pub scheme_repository_url: Option<String>,
    pub schemes_list_url: Option<String>,
    pub templates_list_url: Option<String>,
    pub applications: Option<Table<ApplicationDocument>>,
}

/// A `ConfigDocument` with its texts as sequences of characters and
/// its applications as a map.
pub struct ConfigDocumentView {
    pub scheme: Option<Seq<char>>,
    pub scheme_repository_url: Option<Seq<char>>,
    pub schemes_list_url: Option<Seq<char>>,
    pub templates_list_url: Option<Seq<char>>,
    pub applications: Option<Map<Seq<char>, ApplicationDocumentView>>,
}

impl View for ConfigDocument {
    type V = ConfigDocumentView;

    open spec fn view(&self) -> ConfigDocumentView {
        ConfigDocumentView {
            scheme: text_view(self.scheme),
            scheme_repository_url: text_view(self.scheme_repository_url),
            schemes_list_url: text_view(self.schemes_list_url),
            templates_list_url: text_view(self.templates_list_url),
            applications: table_view(self.applications),
        }
    }
}

/// The configuration: the active scheme, where it comes from, the two
/// list documents, and the applications by name.
#[derive(Debug)]
pub struct Config {
    pub scheme: String,
    pub scheme_repository_url: String,
    pub schemes_list_url: String,
    pub templates_list_url: String,
    pub applications: Table<Application>,
}

/// A `Config` with its texts as sequences of characters and its
/// applications as a map.
pub struct ConfigView {
    pub scheme: Seq<char>,
    pub scheme_repository_url: Seq<char>,
    pub schemes_list_url: Seq<char>,
    pub templates_list_url: Seq<char>,
    pub applications: Map<Seq<char>, ApplicationView>,
}

impl View for Config {
    type V = ConfigView;

    open spec fn view(&self) -> ConfigView {
        ConfigView {
            scheme: self.scheme@,
            scheme_repository_url: self.scheme_repository_url@,
            schemes_list_url: self.schemes_list_url@,
            templates_list_url: self.templates_list_url@,
            applications: self.applications@,
        }
    }
}

/// The configuration that a document resolves to. An absent text is
/// empty, absent applications are none, and an absent list address is
/// the address of the upstream list.
pub open spec fn resolved_config(document: ConfigDocumentView) -> ConfigView {
    ConfigView {
        scheme: text_or_empty(document.scheme),
        scheme_repository_url: text_or_empty(document.scheme_repository_url),
        schemes_list_url: text_or(document.schemes_list_url, scheme_list_url()),
        templates_list_url: text_or(document.templates_list_url, templates_list_url()),
        applications: resolved_applications(document.applications),
    }
}

impl Config {
    /// Resolves a document. Every document resolves: no key is required.
    pub fn from_document(document: &ConfigDocument) -> (res: Config)
        ensures
            res@ == resolved_config(document@),
    {
        let schemes_list_url = match &document.schemes_list_url {
            Some(url) => url.clone(),
            None => default_scheme_list_url(),
        };
        let templates_list_url = match &document.templates_list_url {
            Some(url) => url.clone(),
            None => default_templates_list_url(),
        };
        Config {
            scheme: copy_or_empty(&document.scheme),
            scheme_repository_url: copy_or_empty(&document.scheme_repository_url),
            schemes_list_url,
            templates_list_url,
            applications: resolve_applications(&document.applications),
        }
    }
}

/// The texts of a command line.
pub open spec fn texts(words: Seq<String>) -> Seq<Seq<char>> {
    Seq::new(words.len(), |i: int| words[i]@)
}

/// A configuration under a command line. The command line starts with
/// the program's name. Alone, it changes nothing; one argument after it
/// is the scheme; two are the scheme and its repository. No other
/// command line is accepted.
pub open spec fn with_arguments(config: ConfigView, command_line: Seq<Seq<char>>) -> Option<
    ConfigView,
> {
    if command_line.len() == 1 {
        Some(config)
    } else if command_line.len() == 2 {
        Some(ConfigView { scheme: command_line[1], ..config })
    } else if command_line.len() == 3 {
        Some(
            ConfigView {
                scheme: command_line[1],
                scheme_repository_url: command_line[2],
                ..config
            },
        )
    } else {
        None
    }
}

impl Config {
    /// Lays a command line over the configuration.
    pub fn apply_arguments(self, command_line: &Vec<String>) -> (res: Result<Config, Failure>)
        ensures
            match with_arguments(self@, texts(command_line@)) {
                Some(config) => res matches Ok(c) && c@ == config,
                None => res matches Err(f) && f@ == FailureView::TooManyArguments,
            },
    {
        let mut config = self;
        let count = command_line.len();
        if count == 1 {
            Ok(config)
        } else if count == 2 {
            config.scheme = command_line[1].clone();
            Ok(config)
        } else if count == 3 {
            config.scheme = command_line[1].clone();
            config.scheme_repository_url = command_line[2].clone();
            Ok(config)
        } else {
            Err(Failure::TooManyArguments)
        }
    }
}

impl Default for FileDocument {
    /// The document with every key absent.
    fn default() -> (res: FileDocument)
        ensures
            res@ == (FileDocumentView {
                destination: None,
                mode: None,
                start_marker: None,
                end_marker: None,
            }),
    {
        FileDocument { destination: None, mode: None, start_marker: None, end_marker: None }
    }
}

impl Default for ApplicationDocument {
    /// The document with every key absent.
    fn default() -> (res: ApplicationDocument)
        ensures
            res@ == (ApplicationDocumentView {
                hook: None,
                template_repository_url: None,
                files: None,
            }),
    {
        ApplicationDocument { hook: None, template_repository_url: None, files: None }
    }
}

impl Default for ConfigDocument {
    /// The document with every key absent.
    fn default() -> (res: ConfigDocument)
        ensures
            res@ == (ConfigDocumentView {
                scheme: None,
                scheme_repository_url: None,
                schemes_list_url: None,
                templates_list_url: None,
                applications: None,
            }),
    {
        ConfigDocument {
            scheme: None,
            scheme_repository_url: None,
            schemes_list_url: None,
            templates_list_url: None,
            applications: None,
        }
    }
}

impl Default for File {
    /// The file with every text empty.
    fn default() -> (res: File)
        ensures
            res@ == (FileView {
                destination: Seq::empty(),
                mode: Seq::empty(),
                start_marker: Seq::empty(),
                end_marker: Seq::empty(),
            }),
    {
        File {
            destination: String::new(),
            mode: String::new(),
            start_marker: String::new(),
            end_marker: String::new(),
        }
    }
}

impl Default for Application {
    /// The application with every text empty and no files.
    fn default() -> (res: Application)
        ensures
            res@ == (ApplicationView {
                hook: Seq::empty(),
                template_repository_url: Seq::empty(),
                files: Map::empty(),
            }),
    {
        Application {
            hook: String::new(),
            template_repository_url: String::new(),
            files: Table::new(),
        }
    }
}

impl Default for Config {
    /// The configuration with every text empty and no applications. Its
    /// list addresses are empty too: the upstream lists are what an
    /// absent key of a document resolves to, not what an empty
    /// configuration holds.
    fn default() -> (res: Config)
        ensures
            res@ == (ConfigView {
                scheme: Seq::empty(),
                scheme_repository_url: Seq::empty(),
                schemes_list_url: Seq::empty(),
                templates_list_url: Seq::empty(),
                applications: Map::empty(),
            }),
    {
        Config {
            scheme: String::new(),
            scheme_repository_url: String::new(),
            schemes_list_url: String::new(),
            templates_list_url: String::new(),
            applications: Table::new(),
        }
    }
}

/// Every document resolves, and each absent key resolves to its
/// default: a text to the empty text, applications and files to none.
/// A key that is present keeps what it holds.
pub proof fn absent_keys_take_defaults(document: ConfigDocumentView)
    ensures
        resolved_config(document).scheme == text_or_empty(document.scheme),
        document.scheme is None ==> resolved_config(document).scheme == Seq::<char>::empty(),
        document.scheme_repository_url is None ==> resolved_config(
            document,
        ).scheme_repository_url == Seq::<char>::empty(),
        document.schemes_list_url matches Some(url) ==> resolved_config(document).schemes_list_url
            == url,
        document.templates_list_url matches Some(url) ==> resolved_config(
            document,
        ).templates_list_url == url,
        document.applications is None ==> resolved_config(document).applications == Map::<
            Seq<char>,
            ApplicationView,
        >::empty(),
        document.applications matches Some(applications) ==> {
            &&& resolved_config(document).applications.dom() == applications.dom()
            &&& forall|name: Seq<char>| #[trigger]
                applications.contains_key(name) ==> resolved_config(document).applications[name]
                    == resolved_application(applications[name])
        },
{
}

/// Within an application, each absent key resolves to its default, and
/// so within each of its files.
pub proof fn absent_application_keys_take_defaults(document: ApplicationDocumentView)
    ensures
        document.hook is None ==> resolved_application(document).hook == Seq::<char>::empty(),
        document.template_repository_url is None ==> resolved_application(
            document,
        ).template_repository_url == Seq::<char>::empty(),
        document.files is None ==> resolved_application(document).files == Map::<
            Seq<char>,
            FileView,
        >::empty(),
        document.files matches Some(files) ==> {
            &&& resolved_application(document).files.dom() == files.dom()
            &&& forall|name: Seq<char>| #[trigger]
                files.contains_key(name) ==> {
                    let file = resolved_application(document).files[name];
                    &&& file == resolved_file(files[name])
                    &&& files[name].destination is None ==> file.destination == Seq::<char>::empty()
                    &&& files[name].mode is None ==> file.mode == Seq::<char>::empty()
                    &&& files[name].start_marker is None ==> file.start_marker == Seq::<
                        char,
                    >::empty()
                    &&& files[name].end_marker is None ==> file.end_marker == Seq::<char>::empty()
                }
        },
{
}

/// A document without a list address resolves to the address of the
/// upstream list.
pub proof fn absent_list_addresses_are_upstream(document: ConfigDocumentView)
    ensures
        document.schemes_list_url is None ==> resolved_config(document).schemes_list_url
            == "https://raw.githubusercontent.com/chriskempson/base16-schemes-source/master/list.yaml"@,
        document.templates_list_url is None ==> resolved_config(document).templates_list_url
            == "https://raw.githubusercontent.com/chriskempson/base16-templates-source/master/list.yaml"@,
{
    crate::urls::default_urls_written_out();
}

/// What a command line changes: alone, nothing; with one argument, the
/// scheme and nothing else; with two, the scheme and its repository and
/// nothing else. A longer one is not accepted, nor an empty one.
pub proof fn arguments_change_scheme_and_repository_only(
    config: ConfigView,
    command_line: Seq<Seq<char>>,
)
    ensures
        command_line.len() == 1 ==> with_arguments(config, command_line) == Some(config),
        command_line.len() == 2 ==> with_arguments(config, command_line) == Some(
            ConfigView { scheme: command_line[1], ..config },
        ),
        command_line.len() == 3 ==> with_arguments(config, command_line) == Some(
            ConfigView {
                scheme: command_line[1],
                scheme_repository_url: command_line[2],
                ..config
            },
        ),
        command_line.len() > 3 || command_line.len() == 0 ==> with_arguments(config, command_line)
            is None,
        with_arguments(config, command_line) matches Some(changed) ==> {
            &&& changed.schemes_list_url == config.schemes_list_url
            &&& changed.templates_list_url == config.templates_list_url
            &&& changed.applications == config.applications
            &&& command_line.len() < 3 ==> changed.scheme_repository_url
                == config.scheme_repository_url
        },
{
}

} // verus!
