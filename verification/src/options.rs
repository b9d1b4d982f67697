//! The options of the document operations. Each is a complete set of named
//! values; a value that is not chosen is the server's default.

use crate::query::{
    count_set, distinct_keys, encode_settings, lemma_query_lists_exactly_what_is_set, listed, plain,
    query_pairs, query_text, settings_view, Setting, SettingView,
};
use vstd::prelude::*;

verus! {

/// How the query writes a flag.
pub open spec fn flag_text(flag: bool) -> Seq<char> {
    if flag {
        "true"@
    } else {
        "false"@
    }
}

/// A flag with its key and default, as a setting.
pub open spec fn flag_setting(key: Seq<char>, flag: bool, default: bool) -> SettingView {
    SettingView { key, value: flag_text(flag), default: flag_text(default) }
}

fn flag_word(flag: bool) -> (word: &'static str)
    ensures
        word@ == flag_text(flag),
{
    if flag {
        "true"
    } else {
        "false"
    }
}

fn flag(key: &'static str, value: bool, default: bool) -> (setting: Setting)
    ensures
        setting@ == flag_setting(key@, value, default),
{
    Setting { key, value: flag_word(value), default: flag_word(default) }
}

/// What an insert does when the key is already taken.
#[derive(Clone, Copy, Debug, PartialEq, Eq, Structural)]
pub enum DocumentOverwriteMode {
    /// Fail. This is the server's default.
    Conflict,
    /// Leave the stored document as it is.
    Ignore,
    /// Replace the stored document.
    Replace,
    /// Merge into the stored document.
    Update,
}

impl DocumentOverwriteMode {
    /// How the query writes the mode.
    pub open spec fn text(self) -> Seq<char> {
        match self {
            DocumentOverwriteMode::Conflict => "conflict"@,
            DocumentOverwriteMode::Ignore => "ignore"@,
            DocumentOverwriteMode::Replace => "replace"@,
            DocumentOverwriteMode::Update => "update"@,
        }
    }

    /// How the query writes the mode.
    pub fn as_str(&self) -> (word: &'static str)
        ensures
            word@ == self.text(),
    {
        match self {
            DocumentOverwriteMode::Conflict => "conflict",
            DocumentOverwriteMode::Ignore => "ignore",
            DocumentOverwriteMode::Replace => "replace",
            DocumentOverwriteMode::Update => "update",
        }
    }
}

impl Default for DocumentOverwriteMode {
    fn default() -> (mode: Self)
        ensures
            mode == DocumentOverwriteMode::Conflict,
    {
        DocumentOverwriteMode::Conflict
    }
}

/// Options of an insert.
#[derive(Clone, Copy, Debug, PartialEq, Eq, Structural)]
pub struct DocumentInsertOptions {
    /// Wait until the document is on disk. Default: no.
    pub wait_for_sync: bool,
    /// Return the stored document. Default: no.
    pub return_new: bool,
    /// Return the document that was overwritten. Default: no.
    pub return_old: bool,
    /// Answer with an empty body. Default: no.
    pub silent: bool,
    /// Replace a document with the same key. Default: no.
    pub overwrite: bool,
    /// What to do when the key is taken. Default: `Conflict`.
    pub overwrite_mode: DocumentOverwriteMode,
}

impl DocumentInsertOptions {
    /// The server's defaults.
    pub open spec fn defaults() -> Self {
        DocumentInsertOptions {
            wait_for_sync: false,
            return_new: false,
            return_old: false,
            silent: false,
            overwrite: false,
            overwrite_mode: DocumentOverwriteMode::Conflict,
        }
    }

    /// The settings in the order in which the query lists them.
    pub open spec fn spec_settings(self) -> Seq<SettingView> {
        seq![
            flag_setting("waitForSync"@, self.wait_for_sync, false),
            flag_setting("returnNew"@, self.return_new, false),
            flag_setting("returnOld"@, self.return_old, false),
            flag_setting("silent"@, self.silent, false),
            flag_setting("overwrite"@, self.overwrite, false),
            SettingView {
                key: "overwriteMode"@,
                value: self.overwrite_mode.text(),
                default: DocumentOverwriteMode::Conflict.text(),
            },
        ]
    }

    /// The query string of these options.
    pub open spec fn spec_query(self) -> Seq<char> {
        query_text(listed(self.spec_settings()))
    }

    /// Starts from the server's defaults.
    pub fn builder() -> (builder: DocumentInsertOptionsBuilder)
        ensures
            builder@ == Self::defaults(),
    {
        DocumentInsertOptionsBuilder { options: Default::default() }
    }

    /// The settings in the order in which the query lists them.
    pub fn settings(&self) -> (settings: Vec<Setting>)
        ensures
            settings_view(settings@) == self.spec_settings(),
    {
        let settings = vec![
            flag("waitForSync", self.wait_for_sync, false),
            flag("returnNew", self.return_new, false),
            flag("returnOld", self.return_old, false),
            flag("silent", self.silent, false),
            flag("overwrite", self.overwrite, false),
            Setting {
                key: "overwriteMode",
                value: self.overwrite_mode.as_str(),
                default: DocumentOverwriteMode::Conflict.as_str(),
            },
        ];
        assert(settings_view(settings@) == self.spec_settings());
        settings
    }

    /// The query string of these options.
    pub fn to_query(&self) -> (query: String)
        ensures
            query@ == self.spec_query(),
    {
        encode_settings(&self.settings())
    }
}

impl Default for DocumentInsertOptions {
    fn default() -> (options: Self)
        ensures
            options == Self::defaults(),
    {
        DocumentInsertOptions {
            wait_for_sync: false,
            return_new: false,
            return_old: false,
            silent: false,
            overwrite: false,
            overwrite_mode: DocumentOverwriteMode::Conflict,
        }
    }
}

/// Chooses the options of an insert one by one.
#[derive(Clone, Copy, Debug)]
pub struct DocumentInsertOptionsBuilder {
    options: DocumentInsertOptions,
}

impl View for DocumentInsertOptionsBuilder {
    type V = DocumentInsertOptions;

    closed spec fn view(&self) -> DocumentInsertOptions {
        self.options
    }
}

impl DocumentInsertOptionsBuilder {
    /// Chooses `wait_for_sync`; the other options stay as they are.
    pub fn wait_for_sync(self, wait_for_sync: bool) -> (next: Self)
        ensures
            next@ == (DocumentInsertOptions { wait_for_sync, ..self@ }),
    {
        DocumentInsertOptionsBuilder {
            options: DocumentInsertOptions { wait_for_sync, ..self.options },
        }
    }

    /// Chooses `return_new`; the other options stay as they are.
    pub fn return_new(self, return_new: bool) -> (next: Self)
        ensures
            next@ == (DocumentInsertOptions { return_new, ..self@ }),
    {
        DocumentInsertOptionsBuilder { options: DocumentInsertOptions { return_new, ..self.options } }
    }

    /// Chooses `return_old`; the other options stay as they are.
    pub fn return_old(self, return_old: bool) -> (next: Self)
        ensures
            next@ == (DocumentInsertOptions { return_old, ..self@ }),
    {
        DocumentInsertOptionsBuilder { options: DocumentInsertOptions { return_old, ..self.options } }
    }

    /// Chooses `silent`; the other options stay as they are.
    pub fn silent(self, silent: bool) -> (next: Self)
        ensures
            next@ == (DocumentInsertOptions { silent, ..self@ }),
    {
        DocumentInsertOptionsBuilder { options: DocumentInsertOptions { silent, ..self.options } }
    }

    /// Chooses `overwrite`; the other options stay as they are.
    pub fn overwrite(self, overwrite: bool) -> (next: Self)
        ensures
            next@ == (DocumentInsertOptions { overwrite, ..self@ }),
    {
        DocumentInsertOptionsBuilder { options: DocumentInsertOptions { overwrite, ..self.options } }
    }

    /// Chooses `overwrite_mode`; the other options stay as they are.
    pub fn overwrite_mode(self, overwrite_mode: DocumentOverwriteMode) -> (next: Self)
        ensures
            next@ == (DocumentInsertOptions { overwrite_mode, ..self@ }),
    {
        DocumentInsertOptionsBuilder {
            options: DocumentInsertOptions { overwrite_mode, ..self.options },
        }
    }

    /// The options as chosen.
    pub fn build(self) -> (options: DocumentInsertOptions)
        ensures
            options == self@,
    {
        self.options
    }
}

/// Options of a partial update.
#[derive(Clone, Copy, Debug, PartialEq, Eq, Structural)]
pub struct DocumentUpdateOptions {
    /// Wait until the change is on disk. Default: no.
    pub wait_for_sync: bool,
    /// Return the stored document. Default: no.
    pub return_new: bool,
    /// Return the document as it was before. Default: no.
    pub return_old: bool,
    /// Answer with an empty body. Default: no.
    pub silent: bool,
    /// Ignore a `_rev` in the body; where this is off, it must match the stored revision. Default: yes.
    pub ignore_revs: bool,
    /// Store attributes that the patch sets to null; where this is off, they are removed. Default: yes.
    pub keep_null: bool,
    /// Merge objects that both documents hold; where this is off, the patch replaces them. Default: yes.
    pub merge_objects: bool,
}

impl DocumentUpdateOptions {
    /// The server's defaults.
    pub open spec fn defaults() -> Self {
        DocumentUpdateOptions {
            wait_for_sync: false,
            return_new: false,
            return_old: false,
            silent: false,
            ignore_revs: true,
            keep_null: true,
            merge_objects: true,
        }
    }

    /// The settings in the order in which the query lists them.
    pub open spec fn spec_settings(self) -> Seq<SettingView> {
        seq![
            flag_setting("waitForSync"@, self.wait_for_sync, false),
            flag_setting("returnNew"@, self.return_new, false),
            flag_setting("returnOld"@, self.return_old, false),
            flag_setting("silent"@, self.silent, false),
            flag_setting("ignoreRevs"@, self.ignore_revs, true),
            flag_setting("keepNull"@, self.keep_null, true),
            flag_setting("mergeObjects"@, self.merge_objects, true),
        ]
    }

    /// The query string of these options.
    pub open spec fn spec_query(self) -> Seq<char> {
        query_text(listed(self.spec_settings()))
    }

    /// Starts from the server's defaults.
    pub fn builder() -> (builder: DocumentUpdateOptionsBuilder)
        ensures
            builder@ == Self::defaults(),
    {
        DocumentUpdateOptionsBuilder { options: Default::default() }
    }

    /// The settings in the order in which the query lists them.
    pub fn settings(&self) -> (settings: Vec<Setting>)
        ensures
            settings_view(settings@) == self.spec_settings(),
    {
        let settings = vec![
            flag("waitForSync", self.wait_for_sync, false),
            flag("returnNew", self.return_new, false),
            flag("returnOld", self.return_old, false),
            flag("silent", self.silent, false),
            flag("ignoreRevs", self.ignore_revs, true),
            flag("keepNull", self.keep_null, true),
            flag("mergeObjects", self.merge_objects, true),
        ];
        assert(settings_view(settings@) == self.spec_settings());
        settings
    }

    /// The query string of these options.
    pub fn to_query(&self) -> (query: String)
        ensures
            query@ == self.spec_query(),
    {
        encode_settings(&self.settings())
    }
}

impl Default for DocumentUpdateOptions {
    fn default() -> (options: Self)
        ensures
            options == Self::defaults(),
    {
        DocumentUpdateOptions {
            wait_for_sync: false,
            return_new: false,
            return_old: false,
            silent: false,
            ignore_revs: true,
            keep_null: true,
            merge_objects: true,
        }
    }
}

/// Chooses the options of a partial update one by one.
#[derive(Clone, Copy, Debug)]
pub struct DocumentUpdateOptionsBuilder {
    options: DocumentUpdateOptions,
}

impl View for DocumentUpdateOptionsBuilder {
    type V = DocumentUpdateOptions;

    closed spec fn view(&self) -> DocumentUpdateOptions {
        self.options
    }
}

impl DocumentUpdateOptionsBuilder {
    /// Chooses `wait_for_sync`; the other options stay as they are.
    pub fn wait_for_sync(self, wait_for_sync: bool) -> (next: Self)
        ensures
            next@ == (DocumentUpdateOptions { wait_for_sync, ..self@ }),
    {
        DocumentUpdateOptionsBuilder { options: DocumentUpdateOptions { wait_for_sync, ..self.options } }
    }

    /// Chooses `return_new`; the other options stay as they are.
    pub fn return_new(self, return_new: bool) -> (next: Self)
        ensures
            next@ == (DocumentUpdateOptions { return_new, ..self@ }),
    {
        DocumentUpdateOptionsBuilder { options: DocumentUpdateOptions { return_new, ..self.options } }
    }

    /// Chooses `return_old`; the other options stay as they are.
    pub fn return_old(self, return_old: bool) -> (next: Self)
        ensures
            next@ == (DocumentUpdateOptions { return_old, ..self@ }),
    {
        DocumentUpdateOptionsBuilder { options: DocumentUpdateOptions { return_old, ..self.options } }
    }

    /// Chooses `silent`; the other options stay as they are.
    pub fn silent(self, silent: bool) -> (next: Self)
        ensures
            next@ == (DocumentUpdateOptions { silent, ..self@ }),
    {
        DocumentUpdateOptionsBuilder { options: DocumentUpdateOptions { silent, ..self.options } }
    }

    /// Chooses `ignore_revs`; the other options stay as they are.
    pub fn ignore_revs(self, ignore_revs: bool) -> (next: Self)
        ensures
            next@ == (DocumentUpdateOptions { ignore_revs, ..self@ }),
    {
        DocumentUpdateOptionsBuilder { options: DocumentUpdateOptions { ignore_revs, ..self.options } }
    }

    /// Chooses `keep_null`; the other options stay as they are.
    pub fn keep_null(self, keep_null: bool) -> (next: Self)
        ensures
            next@ == (DocumentUpdateOptions { keep_null, ..self@ }),
    {
        DocumentUpdateOptionsBuilder { options: DocumentUpdateOptions { keep_null, ..self.options } }
    }

    /// Chooses `merge_objects`; the other options stay as they are.
    pub fn merge_objects(self, merge_objects: bool) -> (next: Self)
        ensures
            next@ == (DocumentUpdateOptions { merge_objects, ..self@ }),
    {
        DocumentUpdateOptionsBuilder { options: DocumentUpdateOptions { merge_objects, ..self.options } }
    }

    /// The options as chosen.
    pub fn build(self) -> (options: DocumentUpdateOptions)
        ensures
            options == self@,
    {
        self.options
    }
}

/// Options of a replacement.
#[derive(Clone, Copy, Debug, PartialEq, Eq, Structural)]
pub struct DocumentReplaceOptions {
    /// Wait until the change is on disk. Default: no.
    pub wait_for_sync: bool,
    /// Return the stored document. Default: no.
    pub return_new: bool,
    /// Return the document as it was before. Default: no.
    pub return_old: bool,
    /// Answer with an empty body. Default: no.
    pub silent: bool,
    /// Ignore a `_rev` in the body; where this is off, it must match the stored revision. Default: yes.
    pub ignore_revs: bool,
}

impl DocumentReplaceOptions {
    /// The server's defaults.
    pub open spec fn defaults() -> Self {
        DocumentReplaceOptions {
            wait_for_sync: false,
            return_new: false,
            return_old: false,
            silent: false,
            ignore_revs: true,
        }
    }

    /// The settings in the order in which the query lists them.
    pub open spec fn spec_settings(self) -> Seq<SettingView> {
        seq![
            flag_setting("waitForSync"@, self.wait_for_sync, false),
            flag_setting("returnNew"@, self.return_new, false),
            flag_setting("returnOld"@, self.return_old, false),
            flag_setting("silent"@, self.silent, false),
            flag_setting("ignoreRevs"@, self.ignore_revs, true),
        ]
    }

    /// The query string of these options.
    pub open spec fn spec_query(self) -> Seq<char> {
        query_text(listed(self.spec_settings()))
    }

    /// Starts from the server's defaults.
    pub fn builder() -> (builder: DocumentReplaceOptionsBuilder)
        ensures
            builder@ == Self::defaults(),
    {
        DocumentReplaceOptionsBuilder { options: Default::default() }
    }

    /// The settings in the order in which the query lists them.
    pub fn settings(&self) -> (settings: Vec<Setting>)
        ensures
            settings_view(settings@) == self.spec_settings(),
    {
        let settings = vec![
            flag("waitForSync", self.wait_for_sync, false),
            flag("returnNew", self.return_new, false),
            flag("returnOld", self.return_old, false),
            flag("silent", self.silent, false),
            flag("ignoreRevs", self.ignore_revs, true),
        ];
        assert(settings_view(settings@) == self.spec_settings());
        settings
    }

    /// The query string of these options.
    pub fn to_query(&self) -> (query: String)
        ensures
            query@ == self.spec_query(),
    {
        encode_settings(&self.settings())
    }
}

impl Default for DocumentReplaceOptions {
    fn default() -> (options: Self)
        ensures
            options == Self::defaults(),
    {
        DocumentReplaceOptions {
            wait_for_sync: false,
            return_new: false,
            return_old: false,
            silent: false,
            ignore_revs: true,
        }
    }
}

/// Chooses the options of a replacement one by one.
#[derive(Clone, Copy, Debug)]
pub struct DocumentReplaceOptionsBuilder {
    options: DocumentReplaceOptions,
}

impl View for DocumentReplaceOptionsBuilder {
    type V = DocumentReplaceOptions;

    closed spec fn view(&self) -> DocumentReplaceOptions {
        self.options
    }
}

impl DocumentReplaceOptionsBuilder {
    /// Chooses `wait_for_sync`; the other options stay as they are.
    pub fn wait_for_sync(self, wait_for_sync: bool) -> (next: Self)
        ensures
            next@ == (DocumentReplaceOptions { wait_for_sync, ..self@ }),
    {
        DocumentReplaceOptionsBuilder { options: DocumentReplaceOptions { wait_for_sync, ..self.options } }
    }

    /// Chooses `return_new`; the other options stay as they are.
    pub fn return_new(self, return_new: bool) -> (next: Self)
        ensures
            next@ == (DocumentReplaceOptions { return_new, ..self@ }),
    {
        DocumentReplaceOptionsBuilder { options: DocumentReplaceOptions { return_new, ..self.options } }
    }

    /// Chooses `return_old`; the other options stay as they are.
    pub fn return_old(self, return_old: bool) -> (next: Self)
        ensures
            next@ == (DocumentReplaceOptions { return_old, ..self@ }),
    {
        DocumentReplaceOptionsBuilder { options: DocumentReplaceOptions { return_old, ..self.options } }
    }

    /// Chooses `silent`; the other options stay as they are.
    pub fn silent(self, silent: bool) -> (next: Self)
        ensures
            next@ == (DocumentReplaceOptions { silent, ..self@ }),
    {
        DocumentReplaceOptionsBuilder { options: DocumentReplaceOptions { silent, ..self.options } }
    }

    /// Chooses `ignore_revs`; the other options stay as they are.
    pub fn ignore_revs(self, ignore_revs: bool) -> (next: Self)
        ensures
            next@ == (DocumentReplaceOptions { ignore_revs, ..self@ }),
    {
        DocumentReplaceOptionsBuilder { options: DocumentReplaceOptions { ignore_revs, ..self.options } }
    }

    /// The options as chosen.
    pub fn build(self) -> (options: DocumentReplaceOptions)
        ensures
            options == self@,
    {
        self.options
    }
}

/// Options of a removal.
#[derive(Clone, Copy, Debug, PartialEq, Eq, Structural)]
pub struct DocumentRemoveOptions {
    /// Wait until the change is on disk. Default: no.
    pub wait_for_sync: bool,
    /// Return the document that was removed. Default: no.
    pub return_old: bool,
    /// Answer with an empty body. Default: no.
    pub silent: bool,
}

impl DocumentRemoveOptions {
    /// The server's defaults.
    pub open spec fn defaults() -> Self {
        DocumentRemoveOptions {
            wait_for_sync: false,
            return_old: false,
            silent: false,
        }
    }

    /// The settings in the order in which the query lists them.
    pub open spec fn spec_settings(self) -> Seq<SettingView> {
        seq![
            flag_setting("waitForSync"@, self.wait_for_sync, false),
            flag_setting("returnOld"@, self.return_old, false),
            flag_setting("silent"@, self.silent, false),
        ]
    }

    /// The query string of these options.
    pub open spec fn spec_query(self) -> Seq<char> {
        query_text(listed(self.spec_settings()))
    }

    /// Starts from the server's defaults.
    pub fn builder() -> (builder: DocumentRemoveOptionsBuilder)
        ensures
            builder@ == Self::defaults(),
    {
        DocumentRemoveOptionsBuilder { options: Default::default() }
    }

    /// The settings in the order in which the query lists them.
    pub fn settings(&self) -> (settings: Vec<Setting>)
        ensures
            settings_view(settings@) == self.spec_settings(),
    {
        let settings = vec![
            flag("waitForSync", self.wait_for_sync, false),
            flag("returnOld", self.return_old, false),
            flag("silent", self.silent, false),
        ];
        assert(settings_view(settings@) == self.spec_settings());
        settings
    }

    /// The query string of these options.
    pub fn to_query(&self) -> (query: String)
        ensures
            query@ == self.spec_query(),
    {
        encode_settings(&self.settings())
    }
}

impl Default for DocumentRemoveOptions {
    fn default() -> (options: Self)
        ensures
            options == Self::defaults(),
    {
        DocumentRemoveOptions {
            wait_for_sync: false,
            return_old: false,
            silent: false,
        }
    }
}

/// Chooses the options of a removal one by one.
#[derive(Clone, Copy, Debug)]
pub struct DocumentRemoveOptionsBuilder {
    options: DocumentRemoveOptions,
}

impl View for DocumentRemoveOptionsBuilder {
    type V = DocumentRemoveOptions;

    closed spec fn view(&self) -> DocumentRemoveOptions {
        self.options
    }
}

impl DocumentRemoveOptionsBuilder {
    /// Chooses `wait_for_sync`; the other options stay as they are.
    pub fn wait_for_sync(self, wait_for_sync: bool) -> (next: Self)
        ensures
            next@ == (DocumentRemoveOptions { wait_for_sync, ..self@ }),
    {
        DocumentRemoveOptionsBuilder { options: DocumentRemoveOptions { wait_for_sync, ..self.options } }
    }

    /// Chooses `return_old`; the other options stay as they are.
    pub fn return_old(self, return_old: bool) -> (next: Self)
        ensures
            next@ == (DocumentRemoveOptions { return_old, ..self@ }),
    {
        DocumentRemoveOptionsBuilder { options: DocumentRemoveOptions { return_old, ..self.options } }
    }

    /// Chooses `silent`; the other options stay as they are.
    pub fn silent(self, silent: bool) -> (next: Self)
        ensures
            next@ == (DocumentRemoveOptions { silent, ..self@ }),
    {
        DocumentRemoveOptionsBuilder { options: DocumentRemoveOptions { silent, ..self.options } }
    }

    /// The options as chosen.
    pub fn build(self) -> (options: DocumentRemoveOptions)
        ensures
            options == self@,
    {
        self.options
    }
}

/// The condition of a read.
#[derive(Clone, Debug, PartialEq, Eq)]
pub enum DocumentReadOptions {
    /// Read unless the document has this revision.
    IfNoneMatch(String),
    /// Read only if the document has this revision.
    IfMatch(String),
    /// Read in any case.
    NoHeader,
}

impl Default for DocumentReadOptions {
    fn default() -> (options: Self)
        ensures
            options == DocumentReadOptions::NoHeader,
    {
        DocumentReadOptions::NoHeader
    }
}

/// A flag is set exactly where it is not at its default.
pub proof fn lemma_flag_is_set(key: Seq<char>, flag: bool, default: bool)
    ensures
        flag_setting(key, flag, default).is_set() <==> flag != default,
        !flag_setting(key, flag, default).value.contains('&'),
{
    reveal_strlit("true");
    reveal_strlit("false");
    assert("true"@.len() != "false"@.len());
}

/// The overwrite mode is set exactly where it is not `Conflict`.
pub proof fn lemma_mode_is_set(mode: DocumentOverwriteMode)
    ensures
        mode.text() != DocumentOverwriteMode::Conflict.text() <==> mode
            != DocumentOverwriteMode::Conflict,
        !mode.text().contains('&'),
{
    reveal_strlit("conflict");
    reveal_strlit("ignore");
    reveal_strlit("replace");
    reveal_strlit("update");
    assert("conflict"@.len() == 8 && "ignore"@.len() == 6 && "replace"@.len() == 7 && "update"@.len()
        == 6);
}

proof fn lemma_keys_are_plain_and_distinct()
    ensures
        !"waitForSync"@.contains('&') && !"waitForSync"@.contains('='),
        !"returnNew"@.contains('&') && !"returnNew"@.contains('='),
        !"returnOld"@.contains('&') && !"returnOld"@.contains('='),
        !"silent"@.contains('&') && !"silent"@.contains('='),
        !"overwrite"@.contains('&') && !"overwrite"@.contains('='),
        !"overwriteMode"@.contains('&') && !"overwriteMode"@.contains('='),
        !"ignoreRevs"@.contains('&') && !"ignoreRevs"@.contains('='),
        !"keepNull"@.contains('&') && !"keepNull"@.contains('='),
        !"mergeObjects"@.contains('&') && !"mergeObjects"@.contains('='),
        "waitForSync"@.len() == 11,
        "returnNew"@.len() == 9,
        "returnOld"@.len() == 9,
        "silent"@.len() == 6,
        "overwrite"@.len() == 9,
        "overwriteMode"@.len() == 13,
        "ignoreRevs"@.len() == 10,
        "keepNull"@.len() == 8,
        "mergeObjects"@.len() == 12,
        "returnNew"@ != "returnOld"@,
        "returnNew"@ != "overwrite"@,
        "returnOld"@ != "overwrite"@,
{
    reveal_strlit("waitForSync");
    reveal_strlit("returnNew");
    reveal_strlit("returnOld");
    reveal_strlit("silent");
    reveal_strlit("overwrite");
    reveal_strlit("overwriteMode");
    reveal_strlit("ignoreRevs");
    reveal_strlit("keepNull");
    reveal_strlit("mergeObjects");
    assert("returnNew"@[6] != "returnOld"@[6]);
    assert("returnNew"@[0] != "overwrite"@[0]);
    assert("returnOld"@[0] != "overwrite"@[0]);
}

/// The query string of an insert lists exactly the options that are not at their
/// default: read back, it gives one pair for each of them, with the option's key
/// and value, and nothing for an option at its default. With every option at its
/// default it is empty.
pub proof fn lemma_insert_query_is_exact(options: DocumentInsertOptions)
    ensures
        plain(options.spec_settings()),
        distinct_keys(options.spec_settings()),
        query_pairs(options.spec_query()) == listed(options.spec_settings()),
        query_pairs(options.spec_query()).len() == count_set(options.spec_settings()),
        forall|j: int|
            0 <= j < options.spec_settings().len() ==> ((#[trigger] options.spec_settings()[j]).is_set()
                <==> query_pairs(options.spec_query()).contains(options.spec_settings()[j].pair())),
        forall|j: int, i: int|
            0 <= j < options.spec_settings().len() && !(#[trigger] options.spec_settings()[j]).is_set()
                && 0 <= i < query_pairs(options.spec_query()).len() ==> (#[trigger] query_pairs(
                options.spec_query(),
            )[i]).0 != options.spec_settings()[j].key,
        options.spec_settings()[0].is_set() <==> options.wait_for_sync != false,
        options.spec_settings()[1].is_set() <==> options.return_new != false,
        options.spec_settings()[2].is_set() <==> options.return_old != false,
        options.spec_settings()[3].is_set() <==> options.silent != false,
        options.spec_settings()[4].is_set() <==> options.overwrite != false,
        options.spec_settings()[5].is_set() <==> options.overwrite_mode
            != DocumentOverwriteMode::Conflict,
        options == DocumentInsertOptions::defaults() ==> options.spec_query() == Seq::<char>::empty(),
{
    let settings = options.spec_settings();
    lemma_keys_are_plain_and_distinct();
    lemma_flag_is_set(settings[0].key, options.wait_for_sync, false);
    lemma_flag_is_set(settings[1].key, options.return_new, false);
    lemma_flag_is_set(settings[2].key, options.return_old, false);
    lemma_flag_is_set(settings[3].key, options.silent, false);
    lemma_flag_is_set(settings[4].key, options.overwrite, false);
    lemma_mode_is_set(options.overwrite_mode);
    assert(plain(settings));
    assert(distinct_keys(settings));
    lemma_query_lists_exactly_what_is_set(settings);
    if options == DocumentInsertOptions::defaults() {
        reveal_with_fuel(listed, 7);
        assert(count_set(settings) == listed(settings).len());
        let s0 = settings;
        let s1 = s0.drop_last();
        assert(!s0.last().is_set());
        let s2 = s1.drop_last();
        assert(!s1.last().is_set());
        let s3 = s2.drop_last();
        assert(!s2.last().is_set());
        let s4 = s3.drop_last();
        assert(!s3.last().is_set());
        let s5 = s4.drop_last();
        assert(!s4.last().is_set());
        let s6 = s5.drop_last();
        assert(!s5.last().is_set());
        assert(listed(s6).len() == 0);
        assert(listed(settings).len() == 0);
    }
}

/// The query string of a partial update lists exactly the options that are not at their
/// default: read back, it gives one pair for each of them, with the option's key
/// and value, and nothing for an option at its default. With every option at its
/// default it is empty.
pub proof fn lemma_update_query_is_exact(options: DocumentUpdateOptions)
    ensures
        plain(options.spec_settings()),
        distinct_keys(options.spec_settings()),
        query_pairs(options.spec_query()) == listed(options.spec_settings()),
        query_pairs(options.spec_query()).len() == count_set(options.spec_settings()),
        forall|j: int|
            0 <= j < options.spec_settings().len() ==> ((#[trigger] options.spec_settings()[j]).is_set()
                <==> query_pairs(options.spec_query()).contains(options.spec_settings()[j].pair())),
        forall|j: int, i: int|
            0 <= j < options.spec_settings().len() && !(#[trigger] options.spec_settings()[j]).is_set()
                && 0 <= i < query_pairs(options.spec_query()).len() ==> (#[trigger] query_pairs(
                options.spec_query(),
            )[i]).0 != options.spec_settings()[j].key,
        options.spec_settings()[0].is_set() <==> options.wait_for_sync != false,
        options.spec_settings()[1].is_set() <==> options.return_new != false,
        options.spec_settings()[2].is_set() <==> options.return_old != false,
        options.spec_settings()[3].is_set() <==> options.silent != false,
        options.spec_settings()[4].is_set() <==> options.ignore_revs != true,
        options.spec_settings()[5].is_set() <==> options.keep_null != true,
        options.spec_settings()[6].is_set() <==> options.merge_objects != true,
        options == DocumentUpdateOptions::defaults() ==> options.spec_query() == Seq::<char>::empty(),
{
    let settings = options.spec_settings();
    lemma_keys_are_plain_and_distinct();
    lemma_flag_is_set(settings[0].key, options.wait_for_sync, false);
    lemma_flag_is_set(settings[1].key, options.return_new, false);
    lemma_flag_is_set(settings[2].key, options.return_old, false);
    lemma_flag_is_set(settings[3].key, options.silent, false);
    lemma_flag_is_set(settings[4].key, options.ignore_revs, true);
    lemma_flag_is_set(settings[5].key, options.keep_null, true);
    lemma_flag_is_set(settings[6].key, options.merge_objects, true);
    assert(plain(settings));
    assert(distinct_keys(settings));
    lemma_query_lists_exactly_what_is_set(settings);
    if options == DocumentUpdateOptions::defaults() {
        reveal_with_fuel(listed, 8);
        assert(count_set(settings) == listed(settings).len());
        let s0 = settings;
        let s1 = s0.drop_last();
        assert(!s0.last().is_set());
        let s2 = s1.drop_last();
        assert(!s1.last().is_set());
        let s3 = s2.drop_last();
        assert(!s2.last().is_set());
        let s4 = s3.drop_last();
        assert(!s3.last().is_set());
        let s5 = s4.drop_last();
        assert(!s4.last().is_set());
        let s6 = s5.drop_last();
        assert(!s5.last().is_set());
        let s7 = s6.drop_last();
        assert(!s6.last().is_set());
        assert(listed(s7).len() == 0);
        assert(listed(settings).len() == 0);
    }
}

/// The query string of a replacement lists exactly the options that are not at their
/// default: read back, it gives one pair for each of them, with the option's key
/// and value, and nothing for an option at its default. With every option at its
/// default it is empty.
pub proof fn lemma_replace_query_is_exact(options: DocumentReplaceOptions)
    ensures
        plain(options.spec_settings()),
        distinct_keys(options.spec_settings()),
        query_pairs(options.spec_query()) == listed(options.spec_settings()),
        query_pairs(options.spec_query()).len() == count_set(options.spec_settings()),
        forall|j: int|
            0 <= j < options.spec_settings().len() ==> ((#[trigger] options.spec_settings()[j]).is_set()
                <==> query_pairs(options.spec_query()).contains(options.spec_settings()[j].pair())),
        forall|j: int, i: int|
            0 <= j < options.spec_settings().len() && !(#[trigger] options.spec_settings()[j]).is_set()
                && 0 <= i < query_pairs(options.spec_query()).len() ==> (#[trigger] query_pairs(
                options.spec_query(),
            )[i]).0 != options.spec_settings()[j].key,
        options.spec_settings()[0].is_set() <==> options.wait_for_sync != false,
        options.spec_settings()[1].is_set() <==> options.return_new != false,
        options.spec_settings()[2].is_set() <==> options.return_old != false,
        options.spec_settings()[3].is_set() <==> options.silent != false,
        options.spec_settings()[4].is_set() <==> options.ignore_revs != true,
        options == DocumentReplaceOptions::defaults() ==> options.spec_query() == Seq::<char>::empty(),
{
    let settings = options.spec_settings();
    lemma_keys_are_plain_and_distinct();
    lemma_flag_is_set(settings[0].key, options.wait_for_sync, false);
    lemma_flag_is_set(settings[1].key, options.return_new, false);
    lemma_flag_is_set(settings[2].key, options.return_old, false);
    lemma_flag_is_set(settings[3].key, options.silent, false);
    lemma_flag_is_set(settings[4].key, options.ignore_revs, true);
    assert(plain(settings));
    assert(distinct_keys(settings));
    lemma_query_lists_exactly_what_is_set(settings);
    if options == DocumentReplaceOptions::defaults() {
        reveal_with_fuel(listed, 6);
        assert(count_set(settings) == listed(settings).len());
        let s0 = settings;
        let s1 = s0.drop_last();
        assert(!s0.last().is_set());
        let s2 = s1.drop_last();
        assert(!s1.last().is_set());
        let s3 = s2.drop_last();
        assert(!s2.last().is_set());
        let s4 = s3.drop_last();
        assert(!s3.last().is_set());
        let s5 = s4.drop_last();
        assert(!s4.last().is_set());
        assert(listed(s5).len() == 0);
        assert(listed(settings).len() == 0);
    }
}

/// The query string of a removal lists exactly the options that are not at their
/// default: read back, it gives one pair for each of them, with the option's key
/// and value, and nothing for an option at its default. With every option at its
/// default it is empty.
pub proof fn lemma_remove_query_is_exact(options: DocumentRemoveOptions)
    ensures
        plain(options.spec_settings()),
        distinct_keys(options.spec_settings()),
        query_pairs(options.spec_query()) == listed(options.spec_settings()),
        query_pairs(options.spec_query()).len() == count_set(options.spec_settings()),
        forall|j: int|
            0 <= j < options.spec_settings().len() ==> ((#[trigger] options.spec_settings()[j]).is_set()
                <==> query_pairs(options.spec_query()).contains(options.spec_settings()[j].pair())),
        forall|j: int, i: int|
            0 <= j < options.spec_settings().len() && !(#[trigger] options.spec_settings()[j]).is_set()
                && 0 <= i < query_pairs(options.spec_query()).len() ==> (#[trigger] query_pairs(
                options.spec_query(),
            )[i]).0 != options.spec_settings()[j].key,
        options.spec_settings()[0].is_set() <==> options.wait_for_sync != false,
        options.spec_settings()[1].is_set() <==> options.return_old != false,
        options.spec_settings()[2].is_set() <==> options.silent != false,
        options == DocumentRemoveOptions::defaults() ==> options.spec_query() == Seq::<char>::empty(),
{
    let settings = options.spec_settings();
    lemma_keys_are_plain_and_distinct();
    lemma_flag_is_set(settings[0].key, options.wait_for_sync, false);
    lemma_flag_is_set(settings[1].key, options.return_old, false);
    lemma_flag_is_set(settings[2].key, options.silent, false);
    assert(plain(settings));
    assert(distinct_keys(settings));
    lemma_query_lists_exactly_what_is_set(settings);
    if options == DocumentRemoveOptions::defaults() {
        reveal_with_fuel(listed, 4);
        assert(count_set(settings) == listed(settings).len());
        let s0 = settings;
        let s1 = s0.drop_last();
        assert(!s0.last().is_set());
        let s2 = s1.drop_last();
        assert(!s1.last().is_set());
        let s3 = s2.drop_last();
        assert(!s2.last().is_set());
        assert(listed(s3).len() == 0);
        assert(listed(settings).len() == 0);
    }
}

} // verus!
