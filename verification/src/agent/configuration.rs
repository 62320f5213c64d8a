//! The agent's configuration and the builder that reads it from the
//! command line's choices and from a settings file.
//!
//! Reading a file from disk is the caller's part: the builder says which
//! form of file its name calls for and takes what the caller loaded.

use crate::agent::errors::{ErrorKind, ErrorView};
use crate::agent::fold::{
    fold_reached, fold_until_error, lemma_fold_error_sticks, lemma_fold_next,
    lemma_fold_reached_ok,
};
use crate::agent::ini::{ini_document, read_ini, IniSection, IniSectionView};
use crate::agent::rules::{
    app_step, as_bool, default_properties, default_step, defaults_reached, draft_of,
    finished_app, new_draft, pairs, read_app, read_format, set_app, set_default, set_format,
    to_bool, to_pair_list, Properties,
};
use crate::agent::settings::{
    app_verdict, default_global, App, AppView, Format, FormatView, GlobalConfiguration,
    GlobalView, LogFormat, LogLevel,
};
use crate::agent::table::{inserted, lemma_inserted_unique, unique_keys, Table};
use crate::text::{
    after_prefix, ends_with, has_prefix, has_suffix, same_text, split_whitespace, starts_with,
    words,
};
use vstd::prelude::*;

verus! {

/// Name of the section that holds the global settings.
pub const DEFAULT: &'static str = "DEFAULT";

/// What the builder gathers besides the global settings.
#[derive(Debug)]
pub struct InnerConfiguration {
    pub file: String,
    pub dry_run: bool,
    pub skip_to_end: bool,
    pub log_level: LogLevel,
    pub apps: Table<App>,
    pub formats: Table<Format>,
}

/// The gathered settings with their texts as sequences of characters.
pub struct InnerView {
    pub file: Seq<char>,
    pub dry_run: bool,
    pub skip_to_end: bool,
    pub log_level: LogLevel,
    pub apps: Seq<(Seq<char>, AppView)>,
    pub formats: Seq<(Seq<char>, FormatView)>,
}

impl DeepView for InnerConfiguration {
    type V = InnerView;

    open spec fn deep_view(&self) -> InnerView {
        InnerView {
            file: self.file@,
            dry_run: self.dry_run,
            skip_to_end: self.skip_to_end,
            log_level: self.log_level,
            apps: self.apps.deep_view(),
            formats: self.formats.deep_view(),
        }
    }
}

impl InnerConfiguration {
    /// No application and no format is named twice.
    pub open spec fn wf(&self) -> bool {
        self.apps.wf() && self.formats.wf()
    }
}

impl Default for InnerConfiguration {
    fn default() -> (inner: InnerConfiguration)
        ensures
            inner.wf(),
            inner.deep_view() == fresh_inner(),
    {
        InnerConfiguration {
            file: String::new(),
            dry_run: false,
            skip_to_end: false,
            log_level: LogLevel::Info,
            apps: Table::new(),
            formats: Table::new(),
        }
    }
}

/// What a builder has gathered before it was told anything.
pub open spec fn fresh_inner() -> InnerView {
    InnerView {
        file: Seq::empty(),
        dry_run: false,
        skip_to_end: false,
        log_level: LogLevel::Info,
        apps: Seq::empty(),
        formats: Seq::empty(),
    }
}

/// The agent's configuration.
#[derive(Debug)]
pub struct Configuration {
    pub file: String,
    pub dry_run: bool,
    pub skip_to_end: bool,
    pub log_level: LogLevel,
    pub global: GlobalConfiguration,
    pub apps: Table<App>,
    pub formats: Table<Format>,
}

/// A configuration with its texts as sequences of characters.
pub struct ConfigurationView {
    pub file: Seq<char>,
    pub dry_run: bool,
    pub skip_to_end: bool,
    pub log_level: LogLevel,
    pub global: GlobalView,
    pub apps: Seq<(Seq<char>, AppView)>,
    pub formats: Seq<(Seq<char>, FormatView)>,
}

impl DeepView for Configuration {
    type V = ConfigurationView;

    open spec fn deep_view(&self) -> ConfigurationView {
        ConfigurationView {
            file: self.file@,
            dry_run: self.dry_run,
            skip_to_end: self.skip_to_end,
            log_level: self.log_level,
            global: self.global.deep_view(),
            apps: self.apps.deep_view(),
            formats: self.formats.deep_view(),
        }
    }
}

/// The configuration made of what a builder gathered.
pub open spec fn built(inner: InnerView, global: GlobalView) -> ConfigurationView {
    ConfigurationView {
        file: inner.file,
        dry_run: inner.dry_run,
        skip_to_end: inner.skip_to_end,
        log_level: inner.log_level,
        global,
        apps: inner.apps,
        formats: inner.formats,
    }
}

impl Configuration {
    /// A builder that was told nothing yet.
    pub fn builder() -> (builder: ConfigurationBuilder)
        ensures
            builder.wf(),
            builder.deep_view() == (BuilderView { c: fresh_inner(), g: default_global() }),
    {
        ConfigurationBuilder::new()
    }

    /// The configuration made of what a builder gathered.
    pub fn build(inner: InnerConfiguration, global: GlobalConfiguration) -> (configuration: Self)
        ensures
            configuration.deep_view() == built(inner.deep_view(), global.deep_view()),
    {
        Configuration {
            file: inner.file,
            dry_run: inner.dry_run,
            skip_to_end: inner.skip_to_end,
            log_level: inner.log_level,
            global,
            apps: inner.apps,
            formats: inner.formats,
        }
    }

    /// Checks every application, in the order in which they were first
    /// named, and reports what is wrong with the first that fails.
    pub fn validate(&self) -> (verdict: Result<(), ErrorKind>)
        ensures
            verdict is Ok <==> forall|i: int|
                0 <= i < self.deep_view().apps.len() ==> app_verdict(
                    (#[trigger] self.deep_view().apps[i]).1,
                ) is None,
            verdict matches Err(error) ==> exists|i: int|
                0 <= i < self.deep_view().apps.len() && app_verdict(
                    (#[trigger] self.deep_view().apps[i]).1,
                ) == Some(error@) && forall|j: int|
                    0 <= j < i ==> app_verdict((#[trigger] self.deep_view().apps[j]).1) is None,
    {
        let entries = self.apps.entries();
        let mut i: usize = 0;
        while i < entries.len()
            invariant
                i <= entries.len(),
                entries.deep_view() == self.deep_view().apps,
                forall|j: int|
                    0 <= j < i ==> app_verdict((#[trigger] self.deep_view().apps[j]).1) is None,
            decreases entries.len() - i,
        {
            match entries[i].1.validate() {
                Ok(()) => {},
                Err(error) => {
                    assert(app_verdict(self.deep_view().apps[i as int].1) == Some(error@));
                    return Err(error);
                },
            }
            i = i + 1;
        }
        Ok(())
    }

    /// How much the agent itself logs.
    pub fn log_level(&self) -> (level: LogLevel)
        ensures
            level == self.deep_view().log_level,
    {
        self.log_level
    }
}

/// The agent's settings as a settings file in TOML form lays them out.
#[derive(Debug)]
pub struct TomlConfiguration {
    pub default: GlobalConfiguration,
    pub app: Vec<App>,
    pub format: Vec<Format>,
}

/// The laid-out settings with their texts as sequences of characters.
pub struct TomlView {
    pub default: GlobalView,
    pub app: Seq<AppView>,
    pub format: Seq<FormatView>,
}

impl DeepView for TomlConfiguration {
    type V = TomlView;

    open spec fn deep_view(&self) -> TomlView {
        TomlView {
            default: self.default.deep_view(),
            app: self.app.deep_view(),
            format: self.format.deep_view(),
        }
    }
}

/// Putting an application into the table under its own name.
pub open spec fn app_merge() -> spec_fn(Seq<(Seq<char>, AppView)>, AppView) -> Seq<
    (Seq<char>, AppView),
> {
    |apps: Seq<(Seq<char>, AppView)>, app: AppView| inserted(apps, app.name, app)
}

/// Putting a format into the table under its own name.
pub open spec fn format_merge() -> spec_fn(Seq<(Seq<char>, FormatView)>, FormatView) -> Seq<
    (Seq<char>, FormatView),
> {
    |formats: Seq<(Seq<char>, FormatView)>, format: FormatView|
        inserted(formats, format.name, format)
}

/// What a builder has gathered after a TOML file's settings came in: its
/// applications and formats join the tables in file order, each under its
/// own name.
pub open spec fn toml_merged(inner: InnerView, toml: TomlView) -> InnerView {
    InnerView {
        apps: toml.app.fold_left(inner.apps, app_merge()),
        formats: toml.format.fold_left(inner.formats, format_merge()),
        ..inner
    }
}

impl TomlConfiguration {
    /// Hands the file's settings to a builder's parts: the applications
    /// and formats join the tables, and the file's global settings take
    /// the place of the builder's.
    pub fn consume(self, inner: &mut InnerConfiguration, global: &mut GlobalConfiguration)
        requires
            old(inner).wf(),
        ensures
            final(inner).wf(),
            final(inner).deep_view() == toml_merged(old(inner).deep_view(), self.deep_view()),
            final(global).deep_view() == self.deep_view().default,
    {
        let mut app = self.app;
        let mut format = self.format;
        *global = self.default;
        let ghost apps = app.deep_view();
        let ghost formats = format.deep_view();
        let ghost done: int = 0;
        while app.len() > 0
            invariant
                inner.wf(),
                0 <= done <= apps.len(),
                app.deep_view() == apps.skip(done),
                inner.deep_view() == (InnerView {
                    apps: apps.take(done).fold_left(old(inner).deep_view().apps, app_merge()),
                    ..old(inner).deep_view()
                }),
            decreases app.len(),
        {
            let ghost before = app.deep_view();
            let ghost table = inner.apps.deep_view();
            let next = app.remove(0);
            assert(app.deep_view() =~= before.drop_first());
            assert(before[0] == apps.skip(done)[0]);
            proof {
                lemma_inserted_unique(table, next.name@, next.deep_view());
                assert(apps.take(done + 1).drop_last() =~= apps.take(done));
                done = done + 1;
            }
            inner.apps.insert(next.name.clone(), next);
        }
        proof {
            done = 0;
        }
        while format.len() > 0
            invariant
                inner.wf(),
                0 <= done <= formats.len(),
                format.deep_view() == formats.skip(done),
                inner.deep_view() == (InnerView {
                    apps: apps.fold_left(old(inner).deep_view().apps, app_merge()),
                    formats: formats.take(done).fold_left(
                        old(inner).deep_view().formats,
                        format_merge(),
                    ),
                    ..old(inner).deep_view()
                }),
            decreases format.len(),
        {
            let ghost before = format.deep_view();
            let ghost table = inner.formats.deep_view();
            let next = format.remove(0);
            assert(format.deep_view() =~= before.drop_first());
            assert(before[0] == formats.skip(done)[0]);
            proof {
                lemma_inserted_unique(table, next.name@, next.deep_view());
                assert(formats.take(done + 1).drop_last() =~= formats.take(done));
                done = done + 1;
            }
            inner.formats.insert(next.name.clone(), next);
        }
    }

    /// Lays a configuration out as a TOML file holds it: the global
    /// settings, then the applications and the formats without the names
    /// they were filed under.
    pub fn from(configuration: Configuration) -> (toml: TomlConfiguration)
        ensures
            toml.deep_view() == (TomlView {
                default: configuration.deep_view().global,
                app: Seq::new(
                    configuration.deep_view().apps.len(),
                    |i: int| configuration.deep_view().apps[i].1,
                ),
                format: Seq::new(
                    configuration.deep_view().formats.len(),
                    |i: int| configuration.deep_view().formats[i].1,
                ),
            }),
    {
        TomlConfiguration {
            default: configuration.global,
            app: configuration.apps.into_values(),
            format: configuration.formats.into_values(),
        }
    }
}

/// Gathers the agent's configuration.
pub struct ConfigurationBuilder {
    c: InnerConfiguration,
    g: GlobalConfiguration,
}

/// What a builder has gathered, with texts as sequences of characters.
pub struct BuilderView {
    pub c: InnerView,
    pub g: GlobalView,
}

impl DeepView for ConfigurationBuilder {
    type V = BuilderView;

    closed spec fn deep_view(&self) -> BuilderView {
        BuilderView { c: self.c.deep_view(), g: self.g.deep_view() }
    }
}

/// The form of a settings file, told by the end of its name.
#[derive(Clone, Copy, Debug, PartialEq, Eq, Structural)]
pub enum FileKind {
    /// A name that ends in `.conf`: sections of named values.
    Ini,
    /// A name that ends in `.toml`.
    Toml,
    /// Any other name: the file is not read.
    Other,
}

/// The form of the settings file of the given name.
pub open spec fn file_kind(file: Seq<char>) -> FileKind {
    if has_suffix(file, ".conf"@) {
        FileKind::Ini
    } else if has_suffix(file, ".toml"@) {
        FileKind::Toml
    } else {
        FileKind::Other
    }
}

/// What the caller loaded for the builder.
#[derive(Debug)]
pub enum LoadedFile {
    /// The text of the file.
    Text(String),
    /// The settings that a TOML file held.
    Settings(TomlConfiguration),
    /// The file could not be read or understood.
    Unread,
}

/// The values of the first section named `DEFAULT`, or none if there is
/// no such section.
pub open spec fn default_section(sections: Seq<IniSectionView>) -> Properties
    decreases sections.len(),
{
    if sections.len() == 0 {
        Seq::empty()
    } else if sections[0].name == Some("DEFAULT"@) {
        sections[0].properties
    } else {
        default_section(sections.drop_first())
    }
}

/// What a builder has gathered after one section of an INI file was read.
/// A section named `app:` and a name describes an application, one named
/// `format:` and a name a format. The `DEFAULT` section, what stands
/// before the first header and any other section change nothing here.
pub open spec fn section_applied(inner: InnerView, section: IniSectionView) -> Result<
    InnerView,
    ErrorView,
> {
    match section.name {
        None => Ok(inner),
        Some(name) => if name == "DEFAULT"@ {
            Ok(inner)
        } else if has_prefix(name, "app:"@) {
            match read_app(name.skip(4), section.properties) {
                Ok(app) => Ok(InnerView { apps: inserted(inner.apps, name.skip(4), app), ..inner }),
                Err(error) => Err(error),
            }
        } else if has_prefix(name, "format:"@) {
            Ok(
                InnerView {
                    formats: inserted(
                        inner.formats,
                        name.skip(7),
                        read_format(name.skip(7), section.properties),
                    ),
                    ..inner
                },
            )
        } else {
            Ok(inner)
        },
    }
}

/// `section_applied` as a step over sections.
pub open spec fn section_step() -> spec_fn(InnerView, IniSectionView) -> Result<
    InnerView,
    ErrorView,
> {
    |inner: InnerView, section: IniSectionView| section_applied(inner, section)
}

/// What a builder has gathered after an INI file was read: first the
/// global settings from the `DEFAULT` section, then every section in file
/// order. The first value that cannot be read ends the reading with its
/// error.
pub open spec fn ini_applied(builder: BuilderView, sections: Seq<IniSectionView>) -> Result<
    BuilderView,
    ErrorView,
> {
    match default_properties(builder.g, default_section(sections)) {
        Err(error) => Err(error),
        Ok(g) => match fold_until_error(builder.c, sections, section_step()) {
            Err(error) => Err(error),
            Ok(c) => Ok(BuilderView { c, g }),
        },
    }
}

/// What the reading of an INI file got to, whether it went through or
/// ended at a value that could not be read.
pub open spec fn ini_reached(builder: BuilderView, sections: Seq<IniSectionView>) -> BuilderView {
    match default_properties(builder.g, default_section(sections)) {
        Err(_) => BuilderView {
            c: builder.c,
            g: defaults_reached(builder.g, default_section(sections)),
        },
        Ok(g) => BuilderView { c: fold_reached(builder.c, sections, section_step()), g },
    }
}

/// What a builder has gathered after the settings file was processed. A
/// file whose name calls for no known form is passed over. A file that
/// the caller could not load in the form its name calls for, or whose
/// text the INI reader rejects, fails the processing.
pub open spec fn file_processed(builder: BuilderView, loaded: LoadedFile) -> Result<
    BuilderView,
    ErrorView,
> {
    match file_kind(builder.c.file) {
        FileKind::Other => Ok(builder),
        FileKind::Ini => match loaded {
            LoadedFile::Text(text) => match ini_document(text@) {
                Some(sections) => ini_applied(builder, sections),
                None => Err(ErrorView::ProcessFileFailed),
            },
            _ => Err(ErrorView::ProcessFileFailed),
        },
        FileKind::Toml => match loaded {
            LoadedFile::Settings(toml) => Ok(
                BuilderView {
                    c: toml_merged(builder.c, toml.deep_view()),
                    g: toml.deep_view().default,
                },
            ),
            _ => Err(ErrorView::ProcessFileFailed),
        },
    }
}

proof fn lemma_default_section_found(sections: Seq<IniSectionView>, at: int)
    requires
        0 <= at < sections.len(),
        sections[at].name == Some("DEFAULT"@),
        forall|j: int| 0 <= j < at ==> (#[trigger] sections[j]).name != Some("DEFAULT"@),
    ensures
        default_section(sections) == sections[at].properties,
    decreases at,
{
    if at > 0 {
        let rest = sections.drop_first();
        lemma_default_section_found(rest, at - 1);
    }
}

proof fn lemma_default_section_absent(sections: Seq<IniSectionView>)
    requires
        forall|j: int| 0 <= j < sections.len() ==> (#[trigger] sections[j]).name != Some(
            "DEFAULT"@,
        ),
    ensures
        default_section(sections) == Seq::<(Seq<char>, Seq<char>)>::empty(),
    decreases sections.len(),
{
    if sections.len() > 0 {
        let rest = sections.drop_first();
        lemma_default_section_absent(rest);
    }
}

impl ConfigurationBuilder {
    /// No application and no format is named twice.
    pub open spec fn wf(&self) -> bool {
        unique_keys(self.deep_view().c.apps) && unique_keys(self.deep_view().c.formats)
    }

    /// A builder that was told nothing yet: no file, the global defaults,
    /// no application and no format.
    pub fn new() -> (builder: Self)
        ensures
            builder.wf(),
            builder.deep_view() == (BuilderView { c: fresh_inner(), g: default_global() }),
    {
        ConfigurationBuilder { c: InnerConfiguration::default(), g: GlobalConfiguration::default() }
    }

    /// Names the settings file.
    pub fn file(self, f: &str) -> (builder: Self)
        ensures
            builder.wf() == self.wf(),
            builder.deep_view() == (BuilderView {
                c: InnerView { file: f@, ..self.deep_view().c },
                ..self.deep_view()
            }),
    {
        let mut builder = self;
        builder.c.file = f.to_owned();
        builder
    }

    /// Says whether the agent only goes through the motions.
    pub fn dry_run(self, d: bool) -> (builder: Self)
        ensures
            builder.wf() == self.wf(),
            builder.deep_view() == (BuilderView {
                c: InnerView { dry_run: d, ..self.deep_view().c },
                ..self.deep_view()
            }),
    {
        let mut builder = self;
        builder.c.dry_run = d;
        builder
    }

    /// Says whether the agent skips what the logs hold already.
    pub fn skip_to_end(self, s: bool) -> (builder: Self)
        ensures
            builder.wf() == self.wf(),
            builder.deep_view() == (BuilderView {
                c: InnerView { skip_to_end: s, ..self.deep_view().c },
                ..self.deep_view()
            }),
    {
        let mut builder = self;
        builder.c.skip_to_end = s;
        builder
    }

    /// Makes the agent log at the `Debug` level.
    pub fn verbose(&mut self) -> (builder: &mut Self)
        ensures
            builder.wf() == old(self).wf(),
            builder.deep_view() == (BuilderView {
                c: InnerView { log_level: LogLevel::Debug, ..old(self).deep_view().c },
                ..old(self).deep_view()
            }),
            *final(self) == *final(builder),
    {
        self.c.log_level = LogLevel::Debug;
        self
    }

    /// Makes the agent log at the `Warning` level.
    pub fn quiet(&mut self) -> (builder: &mut Self)
        ensures
            builder.wf() == old(self).wf(),
            builder.deep_view() == (BuilderView {
                c: InnerView { log_level: LogLevel::Warning, ..old(self).deep_view().c },
                ..old(self).deep_view()
            }),
            *final(self) == *final(builder),
    {
        self.c.log_level = LogLevel::Warning;
        self
    }

    /// The name of the settings file.
    pub fn file_name(&self) -> (name: &str)
        ensures
            name@ == self.deep_view().c.file,
    {
        self.c.file.as_str()
    }

    /// The form of file that the settings file's name calls for.
    pub fn file_kind(&self) -> (kind: FileKind)
        ensures
            kind == file_kind(self.deep_view().c.file),
    {
        if ends_with(self.c.file.as_str(), ".conf") {
            FileKind::Ini
        } else if ends_with(self.c.file.as_str(), ".toml") {
            FileKind::Toml
        } else {
            FileKind::Other
        }
    }

    /// The configuration made of what was gathered.
    pub fn build(self) -> (configuration: Configuration)
        ensures
            configuration.deep_view() == built(self.deep_view().c, self.deep_view().g),
    {
        Configuration::build(self.c, self.g)
    }

    /// Splits a value into its words.
    pub fn convert_to_list(&self, value: &String) -> (list: Vec<String>)
        ensures
            list.deep_view() == words(value@),
    {
        split_whitespace(value.as_str())
    }

    /// Whether a value switches a setting on.
    pub fn convert_to_bool(&self, value: &String) -> (on: bool)
        ensures
            on == as_bool(value@),
    {
        to_bool(value.as_str())
    }

    /// Groups the words of a value two by two: patterns with their names.
    /// A value with an odd number of words is refused.
    pub fn convert_to_pair_list(&self, value: &String) -> (list: Result<
        Vec<Vec<String>>,
        ErrorKind,
    >)
        ensures
            match pairs(words(value@)) {
                Some(grouped) => list matches Ok(l) && l.deep_view() == grouped,
                None => list matches Err(e) && e@ == ErrorView::BadInput(
                    "log_format.patterns"@,
                    value@,
                ),
            },
    {
        match to_pair_list(value.as_str()) {
            Some(list) => Ok(list),
            None => Err(ErrorKind::BadInput("log_format.patterns", value.clone())),
        }
    }

    /// Reads a format's section and files the format under its name.
    pub fn process_format(&mut self, name: &str, props: &Vec<(String, String)>)
        requires
            old(self).wf(),
        ensures
            final(self).wf(),
            final(self).deep_view() == (BuilderView {
                c: InnerView {
                    formats: inserted(
                        old(self).deep_view().c.formats,
                        name@,
                        read_format(name@, props.deep_view()),
                    ),
                    ..old(self).deep_view().c
                },
                ..old(self).deep_view()
            }),
    {
        let mut format = Format::new(name);
        let ghost all = props.deep_view();
        let mut i: usize = 0;
        while i < props.len()
            invariant
                i <= props.len(),
                all == props.deep_view(),
                format.deep_view() == read_format(name@, all.take(i as int)),
            decreases props.len() - i,
        {
            assert(all.take(i + 1).drop_last() =~= all.take(i as int));
            set_format(&mut format, props[i].0.as_str(), props[i].1.as_str());
            i = i + 1;
        }
        proof {
            lemma_inserted_unique(self.c.formats.deep_view(), name@, format.deep_view());
        }
        self.c.formats.insert(name.to_owned(), format);
    }

    /// Reads an application's section and files the application under its
    /// name. A value that cannot be read leaves the builder as it was.
    pub fn process_app(&mut self, name: &str, props: &Vec<(String, String)>) -> (outcome: Result<
        (),
        ErrorKind,
    >)
        requires
            old(self).wf(),
        ensures
            final(self).wf(),
            match read_app(name@, props.deep_view()) {
                Ok(app) => outcome is Ok && final(self).deep_view() == (BuilderView {
                    c: InnerView {
                        apps: inserted(old(self).deep_view().c.apps, name@, app),
                        ..old(self).deep_view().c
                    },
                    ..old(self).deep_view()
                }),
                Err(error) => outcome matches Err(e) && e@ == error && final(self).deep_view()
                    == old(self).deep_view(),
            },
    {
        let mut app = App::new(name);
        let mut params: Table<String> = Table::new();
        let mut log_format = LogFormat::default();
        let ghost all = props.deep_view();
        let mut i: usize = 0;
        while i < props.len()
            invariant
                i <= props.len(),
                all == props.deep_view(),
                params.wf(),
                *self == *old(self),
                old(self).wf(),
                fold_until_error(new_draft(name@), all.take(i as int), app_step()) == Ok::<
                    _,
                    ErrorView,
                >(draft_of(app, params, log_format)),
            decreases props.len() - i,
        {
            proof {
                lemma_fold_next(new_draft(name@), all, app_step(), i as int);
            }
            match set_app(
                &mut app,
                &mut params,
                &mut log_format,
                props[i].0.as_str(),
                props[i].1.as_str(),
            ) {
                Ok(()) => {},
                Err(error) => {
                    proof {
                        lemma_fold_error_sticks(new_draft(name@), all, app_step(), i + 1);
                    }
                    return Err(error);
                },
            }
            i = i + 1;
        }
        assert(all.take(i as int) =~= all);
        app.params = if params.is_empty() {
            None
        } else {
            Some(params)
        };
        app.log_format = log_format.wrap_if_data();
        proof {
            lemma_inserted_unique(self.c.apps.deep_view(), name@, app.deep_view());
        }
        self.c.apps.insert(name.to_owned(), app);
        Ok(())
    }

    /// Reads the global settings from the first section named `DEFAULT`.
    /// The values before one that cannot be read stay applied.
    pub fn process_defaults(&mut self, sections: &Vec<IniSection>) -> (outcome: Result<
        (),
        ErrorKind,
    >)
        ensures
            final(self).wf() == old(self).wf(),
            final(self).deep_view() == (BuilderView {
                g: defaults_reached(
                    old(self).deep_view().g,
                    default_section(sections.deep_view()),
                ),
                ..old(self).deep_view()
            }),
            match default_properties(old(self).deep_view().g, default_section(sections.deep_view())) {
                Ok(_) => outcome is Ok,
                Err(error) => outcome matches Err(e) && e@ == error,
            },
    {
        let ghost start = self.g.deep_view();
        let mut at: usize = 0;
        let mut found = false;
        while at < sections.len()
            invariant_except_break
                !found,
            invariant
                at <= sections.len(),
                forall|j: int|
                    0 <= j < at ==> (#[trigger] sections.deep_view()[j]).name != Some("DEFAULT"@),
            ensures
                found ==> at < sections.len() && sections.deep_view()[at as int].name == Some(
                    "DEFAULT"@,
                ),
                !found ==> at == sections.len(),
                forall|j: int|
                    0 <= j < at ==> (#[trigger] sections.deep_view()[j]).name != Some("DEFAULT"@),
            decreases sections.len() - at,
        {
            let is_default = match &sections[at].name {
                Some(name) => same_text(name.as_str(), DEFAULT),
                None => false,
            };
            if is_default {
                found = true;
                break ;
            }
            at = at + 1;
        }
        if !found {
            proof {
                lemma_default_section_absent(sections.deep_view());
            }
            return Ok(());
        }
        proof {
            lemma_default_section_found(sections.deep_view(), at as int);
        }
        let props = &sections[at].properties;
        let ghost all = props.deep_view();
        let mut i: usize = 0;
        while i < props.len()
            invariant
                i <= props.len(),
                all == props.deep_view(),
                all == default_section(sections.deep_view()),
                start == old(self).deep_view().g,
                self.c == old(self).c,
                fold_until_error(start, all.take(i as int), default_step()) == Ok::<_, ErrorView>(
                    self.g.deep_view(),
                ),
            decreases props.len() - i,
        {
            proof {
                lemma_fold_next(start, all, default_step(), i as int);
                lemma_fold_reached_ok(start, all.take(i as int), default_step());
            }
            match set_default(&mut self.g, props[i].0.as_str(), props[i].1.as_str()) {
                Ok(()) => {},
                Err(error) => {
                    proof {
                        lemma_fold_error_sticks(start, all, default_step(), i + 1);
                    }
                    return Err(error);
                },
            }
            i = i + 1;
        }
        assert(all.take(i as int) =~= all);
        proof {
            lemma_fold_reached_ok(start, all, default_step());
        }
        Ok(())
    }

    /// Reads the sections of an INI file: the global settings first, then
    /// every application and format in file order. What was read before a
    /// value that cannot be read stays applied.
    pub fn process_ini(&mut self, sections: &Vec<IniSection>) -> (outcome: Result<(), ErrorKind>)
        requires
            old(self).wf(),
        ensures
            final(self).wf(),
            final(self).deep_view() == ini_reached(old(self).deep_view(), sections.deep_view()),
            match ini_applied(old(self).deep_view(), sections.deep_view()) {
                Ok(builder) => outcome is Ok && final(self).deep_view() == builder,
                Err(error) => outcome matches Err(e) && e@ == error,
            },
    {
        let ghost all = sections.deep_view();
        let ghost start = self.c.deep_view();
        match self.process_defaults(sections) {
            Ok(()) => {},
            Err(error) => {
                return Err(error);
            },
        }
        proof {
            lemma_fold_reached_ok(
                old(self).deep_view().g,
                default_section(all),
                default_step(),
            );
        }
        let mut i: usize = 0;
        while i < sections.len()
            invariant
                i <= sections.len(),
                all == sections.deep_view(),
                self.wf(),
                start == old(self).deep_view().c,
                default_properties(old(self).deep_view().g, default_section(all)) == Ok::<
                    _,
                    ErrorView,
                >(self.deep_view().g),
                fold_until_error(start, all.take(i as int), section_step()) == Ok::<_, ErrorView>(
                    self.deep_view().c,
                ),
            decreases sections.len() - i,
        {
            proof {
                lemma_fold_next(start, all, section_step(), i as int);
                lemma_fold_reached_ok(start, all.take(i as int), section_step());
            }
            let section = &sections[i];
            match &section.name {
                None => {},
                Some(name) => {
                    if same_text(name.as_str(), DEFAULT) {
                    } else if starts_with(name.as_str(), "app:") {
                        proof {
                            reveal_strlit("app:");
                        }
                        let app_name = after_prefix(name.as_str(), 4);
                        match self.process_app(app_name.as_str(), &section.properties) {
                            Ok(()) => {},
                            Err(error) => {
                                proof {
                                    lemma_fold_error_sticks(start, all, section_step(), i + 1);
                                }
                                return Err(error);
                            },
                        }
                    } else if starts_with(name.as_str(), "format:") {
                        proof {
                            reveal_strlit("format:");
                        }
                        let format_name = after_prefix(name.as_str(), 7);
                        self.process_format(format_name.as_str(), &section.properties);
                    }
                },
            }
            i = i + 1;
        }
        assert(all.take(i as int) =~= all);
        proof {
            lemma_fold_reached_ok(start, all, section_step());
        }
        Ok(())
    }

    /// Reads the text of an INI file. A text that the INI reader rejects
    /// fails the processing and leaves the builder as it was.
    pub fn process_ini_file(&mut self, text: &str) -> (outcome: Result<(), ErrorKind>)
        requires
            old(self).wf(),
        ensures
            final(self).wf(),
            match ini_document(text@) {
                None => outcome matches Err(e) && e@ == ErrorView::ProcessFileFailed
                    && final(self).deep_view() == old(self).deep_view(),
                Some(sections) => {
                    &&& final(self).deep_view() == ini_reached(old(self).deep_view(), sections)
                    &&& match ini_applied(old(self).deep_view(), sections) {
                        Ok(builder) => outcome is Ok && final(self).deep_view() == builder,
                        Err(error) => outcome matches Err(e) && e@ == error,
                    }
                },
            },
    {
        match read_ini(text) {
            None => Err(ErrorKind::ProcessFileFailed),
            Some(sections) => self.process_ini(&sections),
        }
    }

    /// Takes in the settings that a TOML file held.
    pub fn process_toml_file(&mut self, toml: TomlConfiguration)
        requires
            old(self).wf(),
        ensures
            final(self).wf(),
            final(self).deep_view() == (BuilderView {
                c: toml_merged(old(self).deep_view().c, toml.deep_view()),
                g: toml.deep_view().default,
            }),
    {
        toml.consume(&mut self.c, &mut self.g);
    }

    /// Processes the settings file that the caller loaded. What is done
    /// with it goes by the file's name: a name that ends in `.conf` takes
    /// the file's text and reads it as INI, one that ends in `.toml`
    /// takes the settings that the file held, and any other name leaves
    /// the builder as it is, whatever was loaded.
    pub fn process_file(self, loaded: LoadedFile) -> (outcome: Result<Self, ErrorKind>)
        requires
            self.wf(),
        ensures
            match file_processed(self.deep_view(), loaded) {
                Ok(builder) => outcome matches Ok(b) && b.wf() && b.deep_view() == builder,
                Err(error) => outcome matches Err(e) && e@ == error,
            },
    {
        let mut builder = self;
        match builder.file_kind() {
            FileKind::Other => Ok(builder),
            FileKind::Ini => match loaded {
                LoadedFile::Text(text) => {
                    match builder.process_ini_file(text.as_str()) {
                        Ok(()) => Ok(builder),
                        Err(error) => Err(error),
                    }
                },
                _ => Err(ErrorKind::ProcessFileFailed),
            },
            FileKind::Toml => match loaded {
                LoadedFile::Settings(toml) => {
                    builder.process_toml_file(toml);
                    Ok(builder)
                },
                _ => Err(ErrorKind::ProcessFileFailed),
            },
        }
    }
}

} // verus!
