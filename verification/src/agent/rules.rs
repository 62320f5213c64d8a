//! The rules by which the named values of a settings file change the
//! settings, one value at a time and in file order.

use crate::agent::errors::{ErrorKind, ErrorView};
use crate::agent::fold::{fold_reached, fold_until_error};
use crate::agent::settings::{
    new_app, new_format, App, AppView, Format, FormatView, GlobalConfiguration, GlobalView,
    LogFormat, LogFormatView,
};
use crate::agent::table::{inserted, Table};
use crate::text::{
    after_prefix, has_prefix, parse_u64, parsed_u64, same_text, split_whitespace, starts_with,
    words,
};
use crate::types::{level_named, Level};
use vstd::prelude::*;

verus! {

/// A list of named values in file order.
pub type Properties = Seq<(Seq<char>, Seq<char>)>;

/// Whether a value switches a setting on: every text does but the six
/// spellings of "false" and "no".
pub open spec fn as_bool(value: Seq<char>) -> bool {
    !(value == "false"@ || value == "False"@ || value == "FALSE"@ || value == "no"@ || value
        == "No"@ || value == "NO"@)
}

/// The words of a value two by two, or nothing if their number is odd.
pub open spec fn pairs(words: Seq<Seq<char>>) -> Option<Seq<Seq<Seq<char>>>> {
    if words.len() % 2 == 0 {
        Some(Seq::new(words.len() / 2, |i: int| seq![words[2 * i], words[2 * i + 1]]))
    } else {
        None
    }
}

/// The global settings after one value of the `DEFAULT` section was read.
/// A name that is not a setting changes nothing; a number that cannot be
/// read is an error.
pub open spec fn default_property(global: GlobalView, key: Seq<char>, value: Seq<char>) -> Result<
    GlobalView,
    ErrorView,
> {
    if key == "endpoint"@ {
        Ok(GlobalView { endpoint: value, ..global })
    } else if key == "timeout"@ {
        match parsed_u64(value) {
            Some(seconds) => Ok(GlobalView { timeout_secs: seconds, ..global }),
            None => Err(ErrorView::BadInput("timeout"@, value)),
        }
    } else if key == "log_level"@ {
        Ok(GlobalView { log_level: level_named(value), ..global })
    } else if key == "statefile"@ {
        Ok(GlobalView { statefile: value, ..global })
    } else if key == "sleep_time"@ {
        match parsed_u64(value) {
            Some(seconds) => Ok(GlobalView { sleep_time: seconds, ..global }),
            None => Err(ErrorView::BadInput("sleep_time"@, value)),
        }
    } else if key == "ext_whitelist"@ {
        Ok(GlobalView { ext_whitelist: words(value), ..global })
    } else if key == "ext_blacklist"@ {
        Ok(GlobalView { ext_blacklist: words(value), ..global })
    } else if key == "targets"@ {
        Ok(GlobalView { targets: words(value), ..global })
    } else if key == "blacklist"@ {
        Ok(GlobalView { blacklist: words(value), ..global })
    } else if key == "scrub_regex_patterns"@ {
        Ok(GlobalView { scrub_regex_patterns: words(value), ..global })
    } else if key == "delete_processed_files"@ {
        Ok(GlobalView { delete_processed_files: as_bool(value), ..global })
    } else if key == "filter_chr_attr_sequences"@ {
        Ok(GlobalView { filter_chr_attr_sequences: as_bool(value), ..global })
    } else {
        Ok(global)
    }
}

/// `default_property` as a step over pairs of name and value.
pub open spec fn default_step() -> spec_fn(GlobalView, (Seq<char>, Seq<char>)) -> Result<
    GlobalView,
    ErrorView,
> {
    |global: GlobalView, property: (Seq<char>, Seq<char>)|
        default_property(global, property.0, property.1)
}

/// The global settings after all values of the `DEFAULT` section were
/// read, or the error of the first value that could not be.
pub open spec fn default_properties(global: GlobalView, properties: Properties) -> Result<
    GlobalView,
    ErrorView,
> {
    fold_until_error(global, properties, default_step())
}

/// The global settings that the reading of the `DEFAULT` section got to.
pub open spec fn defaults_reached(global: GlobalView, properties: Properties) -> GlobalView {
    fold_reached(global, properties, default_step())
}

/// An application while its section is read: the settings read so far, and
/// its parameters and its log format, which join it at the end.
pub struct AppDraft {
    pub app: AppView,
    pub params: Properties,
    pub log_format: LogFormatView,
}

/// The draft of the application of the given name before anything is read.
pub open spec fn new_draft(name: Seq<char>) -> AppDraft {
    AppDraft {
        app: new_app(name),
        params: Seq::empty(),
        log_format: LogFormatView { default: None, patterns: None },
    }
}

/// The draft after one value of the application's section was read. A
/// name that begins with `params.` adds a parameter under the rest of the
/// name; names that begin with `log_format.default` or
/// `log_format.patterns` set the log format. Any other name that is not a
/// setting changes nothing.
pub open spec fn app_property(draft: AppDraft, key: Seq<char>, value: Seq<char>) -> Result<
    AppDraft,
    ErrorView,
> {
    let app = draft.app;
    if key == "timeout"@ {
        match parsed_u64(value) {
            Some(seconds) => Ok(AppDraft { app: AppView { timeout_secs: Some(seconds), ..app }, ..draft }),
            None => Err(ErrorView::BadInput("timeout"@, value)),
        }
    } else if key == "endpoint"@ {
        Ok(AppDraft { app: AppView { endpoint: Some(value), ..app }, ..draft })
    } else if key == "ext_whitelist"@ {
        Ok(AppDraft { app: AppView { ext_whitelist: Some(words(value)), ..app }, ..draft })
    } else if key == "ext_blacklist"@ {
        Ok(AppDraft { app: AppView { ext_blacklist: Some(words(value)), ..app }, ..draft })
    } else if key == "targets"@ {
        Ok(AppDraft { app: AppView { targets: Some(words(value)), ..app }, ..draft })
    } else if key == "blacklist"@ {
        Ok(AppDraft { app: AppView { blacklist: Some(words(value)), ..app }, ..draft })
    } else if key == "scrub_regex_patterns"@ {
        Ok(AppDraft { app: AppView { scrub_regex_patterns: Some(words(value)), ..app }, ..draft })
    } else if key == "delete_processed_files"@ {
        Ok(AppDraft { app: AppView { delete_processed_files: Some(as_bool(value)), ..app }, ..draft })
    } else if key == "filter_chr_attr_sequences"@ {
        Ok(
            AppDraft {
                app: AppView { filter_chr_attr_sequences: Some(as_bool(value)), ..app },
                ..draft
            },
        )
    } else if key == "min_log_level"@ {
        Ok(AppDraft { app: AppView { min_log_level: Some(level_named(value)), ..app }, ..draft })
    } else if has_prefix(key, "params."@) {
        Ok(AppDraft { params: inserted(draft.params, key.skip(7), value), ..draft })
    } else if has_prefix(key, "log_format.default"@) {
        Ok(
            AppDraft {
                log_format: LogFormatView { default: Some(value), ..draft.log_format },
                ..draft
            },
        )
    } else if has_prefix(key, "log_format.patterns"@) {
        match pairs(words(value)) {
            Some(patterns) => Ok(
                AppDraft {
                    log_format: LogFormatView { patterns: Some(patterns), ..draft.log_format },
                    ..draft
                },
            ),
            None => Err(ErrorView::BadInput("log_format.patterns"@, value)),
        }
    } else {
        Ok(draft)
    }
}

/// `app_property` as a step over pairs of name and value.
pub open spec fn app_step() -> spec_fn(AppDraft, (Seq<char>, Seq<char>)) -> Result<
    AppDraft,
    ErrorView,
> {
    |draft: AppDraft, property: (Seq<char>, Seq<char>)|
        app_property(draft, property.0, property.1)
}

/// The application that a draft becomes: its parameters join it if there
/// are any, and its log format if anything was said about it.
pub open spec fn finished_app(draft: AppDraft) -> AppView {
    AppView {
        params: if draft.params.len() > 0 {
            Some(draft.params)
        } else {
            None
        },
        log_format: draft.log_format.wrap_if_data(),
        ..draft.app
    }
}

/// The application that a section of the given name and values describes,
/// or the error of the first value that could not be read.
pub open spec fn read_app(name: Seq<char>, properties: Properties) -> Result<AppView, ErrorView> {
    match fold_until_error(new_draft(name), properties, app_step()) {
        Ok(draft) => Ok(finished_app(draft)),
        Err(error) => Err(error),
    }
}

/// The format after one value of its section was read.
pub open spec fn format_property(format: FormatView, key: Seq<char>, value: Seq<char>) -> FormatView {
    if key == "type"@ {
        FormatView { ty: value, ..format }
    } else if key == "format"@ {
        FormatView { format: value, ..format }
    } else if key == "datefmt"@ {
        FormatView { datefmt: Some(value), ..format }
    } else {
        format
    }
}

/// `format_property` as a step over pairs of name and value.
pub open spec fn format_step() -> spec_fn(FormatView, (Seq<char>, Seq<char>)) -> FormatView {
    |format: FormatView, property: (Seq<char>, Seq<char>)|
        format_property(format, property.0, property.1)
}

/// The format that a section of the given name and values describes.
pub open spec fn read_format(name: Seq<char>, properties: Properties) -> FormatView {
    properties.fold_left(new_format(name), format_step())
}

/// Whether a value switches a setting on.
pub fn to_bool(value: &str) -> (on: bool)
    ensures
        on == as_bool(value@),
{
    !(same_text(value, "false") || same_text(value, "False") || same_text(value, "FALSE")
        || same_text(value, "no") || same_text(value, "No") || same_text(value, "NO"))
}

/// Groups the words of a value two by two. A value with an odd number of
/// words has no such grouping.
pub fn to_pair_list(value: &str) -> (list: Option<Vec<Vec<String>>>)
    ensures
        list.deep_view() == pairs(words(value@)),
{
    let mut all = split_whitespace(value);
    let ghost texts = all.deep_view();
    if all.len() % 2 != 0 {
        return None;
    }
    let mut reversed: Vec<Vec<String>> = Vec::new();
    while all.len() > 0
        invariant
            all.len() % 2 == 0,
            texts.len() % 2 == 0,
            all.len() <= texts.len(),
            all.deep_view() == texts.take(all.len() as int),
            reversed.len() == (texts.len() - all.len()) / 2,
            forall|k: int|
                0 <= k < reversed.len() ==> (#[trigger] reversed.deep_view()[k]) == seq![
                    texts[texts.len() - 2 * k - 2],
                    texts[texts.len() - 2 * k - 1],
                ],
        decreases all.len(),
    {
        let ghost before = all.deep_view();
        let ghost done = reversed.deep_view();
        let second = all.pop().unwrap();
        let ghost middle = all.deep_view();
        assert(middle =~= before.drop_last());
        let first = all.pop().unwrap();
        assert(second@ == before[before.len() - 1]);
        assert(first@ == middle[middle.len() - 1]);
        let mut pair: Vec<String> = Vec::new();
        pair.push(first);
        pair.push(second);
        assert(pair.deep_view() =~= seq![first@, second@]);
        reversed.push(pair);
        assert(reversed.deep_view() =~= done.push(seq![first@, second@]));
    }
    let ghost backwards = reversed.deep_view();
    let mut list: Vec<Vec<String>> = Vec::new();
    while reversed.len() > 0
        invariant
            texts.len() % 2 == 0,
            backwards.len() == texts.len() / 2,
            reversed.len() + list.len() == backwards.len(),
            reversed.deep_view() == backwards.take(reversed.len() as int),
            forall|k: int|
                0 <= k < backwards.len() ==> (#[trigger] backwards[k]) == seq![
                    texts[texts.len() - 2 * k - 2],
                    texts[texts.len() - 2 * k - 1],
                ],
            forall|k: int|
                0 <= k < list.len() ==> (#[trigger] list.deep_view()[k]) == seq![
                    texts[2 * k],
                    texts[2 * k + 1],
                ],
        decreases reversed.len(),
    {
        let ghost before = reversed.deep_view();
        let ghost done = list.deep_view();
        let pair = reversed.pop().unwrap();
        assert(before[before.len() - 1] == backwards[before.len() - 1]);
        list.push(pair);
        assert(list.deep_view() =~= done.push(pair.deep_view()));
    }
    Some(list)
}

/// Reads one value of the `DEFAULT` section into the global settings. A
/// value that is refused leaves them as they were.
pub fn set_default(global: &mut GlobalConfiguration, key: &str, value: &str) -> (outcome: Result<
    (),
    ErrorKind,
>)
    ensures
        match default_property(old(global).deep_view(), key@, value@) {
            Ok(next) => outcome is Ok && final(global).deep_view() == next,
            Err(error) => outcome matches Err(e) && e@ == error && final(global).deep_view() == old(
                global,
            ).deep_view(),
        },
{
    if same_text(key, "endpoint") {
        global.endpoint = value.to_owned();
    } else if same_text(key, "timeout") {
        match parse_u64(value) {
            Some(seconds) => {
                global.timeout_secs = seconds;
            },
            None => {
                return Err(ErrorKind::BadInput("timeout", value.to_owned()));
            },
        }
    } else if same_text(key, "log_level") {
        global.log_level = Level::from(value);
    } else if same_text(key, "statefile") {
        global.statefile = value.to_owned();
    } else if same_text(key, "sleep_time") {
        match parse_u64(value) {
            Some(seconds) => {
                global.sleep_time = seconds;
            },
            None => {
                return Err(ErrorKind::BadInput("sleep_time", value.to_owned()));
            },
        }
    } else if same_text(key, "ext_whitelist") {
        global.ext_whitelist = split_whitespace(value);
    } else if same_text(key, "ext_blacklist") {
        global.ext_blacklist = split_whitespace(value);
    } else if same_text(key, "targets") {
        global.targets = split_whitespace(value);
    } else if same_text(key, "blacklist") {
        global.blacklist = split_whitespace(value);
    } else if same_text(key, "scrub_regex_patterns") {
        global.scrub_regex_patterns = split_whitespace(value);
    } else if same_text(key, "delete_processed_files") {
        global.delete_processed_files = to_bool(value);
    } else if same_text(key, "filter_chr_attr_sequences") {
        global.filter_chr_attr_sequences = to_bool(value);
    }
    Ok(())
}

/// Reads one value of a format's section into the format.
pub fn set_format(format: &mut Format, key: &str, value: &str)
    ensures
        final(format).deep_view() == format_property(old(format).deep_view(), key@, value@),
{
    if same_text(key, "type") {
        format.ty = value.to_owned();
    } else if same_text(key, "format") {
        format.format = value.to_owned();
    } else if same_text(key, "datefmt") {
        format.datefmt = Some(value.to_owned());
    }
}

/// The draft that an application, its parameters and its log format make
/// while a section is read.
pub open spec fn draft_of(app: App, params: Table<String>, log_format: LogFormat) -> AppDraft {
    AppDraft {
        app: app.deep_view(),
        params: params.deep_view(),
        log_format: log_format.deep_view(),
    }
}

/// Reads one value of an application's section. A value that is refused
/// leaves everything as it was.
pub fn set_app(
    app: &mut App,
    params: &mut Table<String>,
    log_format: &mut LogFormat,
    key: &str,
    value: &str,
) -> (outcome: Result<(), ErrorKind>)
    requires
        old(params).wf(),
    ensures
        final(params).wf(),
        match app_property(draft_of(*old(app), *old(params), *old(log_format)), key@, value@) {
            Ok(next) => outcome is Ok && draft_of(*final(app), *final(params), *final(log_format))
                == next,
            Err(error) => outcome matches Err(e) && e@ == error && draft_of(
                *final(app),
                *final(params),
                *final(log_format),
            ) == draft_of(*old(app), *old(params), *old(log_format)),
        },
{
    if same_text(key, "timeout") {
        match parse_u64(value) {
            Some(seconds) => {
                app.timeout_secs = Some(seconds);
            },
            None => {
                return Err(ErrorKind::BadInput("timeout", value.to_owned()));
            },
        }
    } else if same_text(key, "endpoint") {
        app.endpoint = Some(value.to_owned());
    } else if same_text(key, "ext_whitelist") {
        app.ext_whitelist = Some(split_whitespace(value));
    } else if same_text(key, "ext_blacklist") {
        app.ext_blacklist = Some(split_whitespace(value));
    } else if same_text(key, "targets") {
        app.targets = Some(split_whitespace(value));
    } else if same_text(key, "blacklist") {
        app.blacklist = Some(split_whitespace(value));
    } else if same_text(key, "scrub_regex_patterns") {
        app.scrub_regex_patterns = Some(split_whitespace(value));
    } else if same_text(key, "delete_processed_files") {
        app.delete_processed_files = Some(to_bool(value));
    } else if same_text(key, "filter_chr_attr_sequences") {
        app.filter_chr_attr_sequences = Some(to_bool(value));
    } else if same_text(key, "min_log_level") {
        app.min_log_level = Some(Level::from(value));
    } else if starts_with(key, "params.") {
        proof {
            reveal_strlit("params.");
        }
        params.insert(after_prefix(key, 7), value.to_owned());
    } else if starts_with(key, "log_format.default") {
        log_format.default = Some(value.to_owned());
    } else if starts_with(key, "log_format.patterns") {
        match to_pair_list(value) {
            Some(patterns) => {
                log_format.patterns = Some(patterns);
            },
            None => {
                return Err(ErrorKind::BadInput("log_format.patterns", value.to_owned()));
            },
        }
    }
    Ok(())
}

} // verus!
