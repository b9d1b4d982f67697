use arangors::document::{
    DocumentInsertOptions, DocumentOverwriteMode, DocumentReadOptions, DocumentRemoveOptions,
    DocumentReplaceOptions, DocumentUpdateOptions,
};
use arangors::query::{encode_pairs, encode_settings, list_settings, Setting};
use std::collections::BTreeMap;

fn owned(pairs: &[(&str, &str)]) -> Vec<(String, String)> {
    pairs.iter().map(|p| (p.0.to_string(), p.1.to_string())).collect()
}

/// The pairs of a query string, taken apart at `&` and at the first `=`.
fn read_back(query: &str) -> Vec<(String, String)> {
    if query.is_empty() {
        return Vec::new();
    }
    query
        .split('&')
        .map(|item| {
            let (key, value) = item.split_once('=').unwrap();
            (key.to_string(), value.to_string())
        })
        .collect()
}

#[test]
fn defaults_are_those_of_the_server() {
    assert_eq!(
        DocumentInsertOptions::default(),
        DocumentInsertOptions {
            wait_for_sync: false,
            return_new: false,
            return_old: false,
            silent: false,
            overwrite: false,
            overwrite_mode: DocumentOverwriteMode::Conflict,
        }
    );
    assert_eq!(
        DocumentUpdateOptions::default(),
        DocumentUpdateOptions {
            wait_for_sync: false,
            return_new: false,
            return_old: false,
            silent: false,
            ignore_revs: true,
            keep_null: true,
            merge_objects: true,
        }
    );
    assert_eq!(
        DocumentReplaceOptions::default(),
        DocumentReplaceOptions {
            wait_for_sync: false,
            return_new: false,
            return_old: false,
            silent: false,
            ignore_revs: true,
        }
    );
    assert_eq!(
        DocumentRemoveOptions::default(),
        DocumentRemoveOptions { wait_for_sync: false, return_old: false, silent: false }
    );
    assert_eq!(DocumentReadOptions::default(), DocumentReadOptions::NoHeader);
    assert_eq!(DocumentOverwriteMode::default(), DocumentOverwriteMode::Conflict);
}

#[test]
fn builders_start_from_the_defaults() {
    assert_eq!(DocumentInsertOptions::builder().build(), DocumentInsertOptions::default());
    assert_eq!(DocumentUpdateOptions::builder().build(), DocumentUpdateOptions::default());
    assert_eq!(DocumentReplaceOptions::builder().build(), DocumentReplaceOptions::default());
    assert_eq!(DocumentRemoveOptions::builder().build(), DocumentRemoveOptions::default());
}

#[test]
fn builders_set_what_is_chosen_and_nothing_else() {
    assert_eq!(
        DocumentInsertOptions::builder()
            .wait_for_sync(true)
            .return_new(true)
            .return_old(true)
            .silent(true)
            .overwrite(true)
            .overwrite_mode(DocumentOverwriteMode::Replace)
            .build(),
        DocumentInsertOptions {
            wait_for_sync: true,
            return_new: true,
            return_old: true,
            silent: true,
            overwrite: true,
            overwrite_mode: DocumentOverwriteMode::Replace,
        }
    );
    assert_eq!(
        DocumentInsertOptions::builder().return_old(true).return_old(false).silent(true).build(),
        DocumentInsertOptions { silent: true, ..Default::default() }
    );
    assert_eq!(
        DocumentUpdateOptions::builder()
            .wait_for_sync(true)
            .return_new(true)
            .return_old(true)
            .silent(true)
            .ignore_revs(false)
            .keep_null(false)
            .merge_objects(false)
            .build(),
        DocumentUpdateOptions {
            wait_for_sync: true,
            return_new: true,
            return_old: true,
            silent: true,
            ignore_revs: false,
            keep_null: false,
            merge_objects: false,
        }
    );
    assert_eq!(
        DocumentReplaceOptions::builder()
            .wait_for_sync(true)
            .return_new(true)
            .return_old(true)
            .silent(true)
            .ignore_revs(false)
            .build(),
        DocumentReplaceOptions {
            wait_for_sync: true,
            return_new: true,
            return_old: true,
            silent: true,
            ignore_revs: false,
        }
    );
    assert_eq!(
        DocumentRemoveOptions::builder().wait_for_sync(true).return_old(true).silent(true).build(),
        DocumentRemoveOptions { wait_for_sync: true, return_old: true, silent: true }
    );
    assert_eq!(
        DocumentRemoveOptions::builder().return_old(true).build(),
        DocumentRemoveOptions { wait_for_sync: false, return_old: true, silent: false }
    );
}

#[test]
fn default_options_give_an_empty_query() {
    assert_eq!(DocumentInsertOptions::default().to_query(), "");
    assert_eq!(DocumentUpdateOptions::default().to_query(), "");
    assert_eq!(DocumentReplaceOptions::default().to_query(), "");
    assert_eq!(DocumentRemoveOptions::default().to_query(), "");
}

#[test]
fn queries_are_written_key_by_key() {
    assert_eq!(
        DocumentInsertOptions::builder().return_new(true).build().to_query(),
        "returnNew=true"
    );
    assert_eq!(
        DocumentInsertOptions::builder().return_old(true).overwrite(true).build().to_query(),
        "returnOld=true&overwrite=true"
    );
    assert_eq!(
        DocumentInsertOptions {
            wait_for_sync: true,
            return_new: true,
            return_old: true,
            silent: true,
            overwrite: true,
            overwrite_mode: DocumentOverwriteMode::Ignore,
        }
        .to_query(),
        "waitForSync=true&returnNew=true&returnOld=true&silent=true&overwrite=true&overwriteMode=ignore"
    );
    assert_eq!(
        DocumentUpdateOptions {
            wait_for_sync: true,
            return_new: true,
            return_old: true,
            silent: true,
            ignore_revs: false,
            keep_null: false,
            merge_objects: false,
        }
        .to_query(),
        "waitForSync=true&returnNew=true&returnOld=true&silent=true&ignoreRevs=false&keepNull=false&mergeObjects=false"
    );
    assert_eq!(
        DocumentUpdateOptions::builder().ignore_revs(false).build().to_query(),
        "ignoreRevs=false"
    );
    assert_eq!(
        DocumentUpdateOptions::builder().ignore_revs(true).keep_null(true).build().to_query(),
        ""
    );
    assert_eq!(
        DocumentReplaceOptions::builder().silent(true).ignore_revs(false).build().to_query(),
        "silent=true&ignoreRevs=false"
    );
    assert_eq!(
        DocumentRemoveOptions::builder().wait_for_sync(true).return_old(true).build().to_query(),
        "waitForSync=true&returnOld=true"
    );
    assert_eq!(DocumentRemoveOptions::builder().silent(true).build().to_query(), "silent=true");
}

#[test]
fn overwrite_mode_is_written_unless_it_is_conflict() {
    let query = |mode| DocumentInsertOptions::builder().overwrite_mode(mode).build().to_query();
    assert_eq!(query(DocumentOverwriteMode::Conflict), "");
    assert_eq!(query(DocumentOverwriteMode::Ignore), "overwriteMode=ignore");
    assert_eq!(query(DocumentOverwriteMode::Replace), "overwriteMode=replace");
    assert_eq!(query(DocumentOverwriteMode::Update), "overwriteMode=update");
    assert_eq!(DocumentOverwriteMode::Conflict.as_str(), "conflict");
    assert_eq!(DocumentOverwriteMode::Ignore.as_str(), "ignore");
    assert_eq!(DocumentOverwriteMode::Replace.as_str(), "replace");
    assert_eq!(DocumentOverwriteMode::Update.as_str(), "update");
}

#[test]
fn every_insert_query_lists_exactly_what_differs_from_the_default() {
    let modes = [
        DocumentOverwriteMode::Conflict,
        DocumentOverwriteMode::Ignore,
        DocumentOverwriteMode::Replace,
        DocumentOverwriteMode::Update,
    ];
    for bits in 0..32u32 {
        for mode in modes {
            let options = DocumentInsertOptions {
                wait_for_sync: bits & 1 != 0,
                return_new: bits & 2 != 0,
                return_old: bits & 4 != 0,
                silent: bits & 8 != 0,
                overwrite: bits & 16 != 0,
                overwrite_mode: mode,
            };
            let mut expected = Vec::new();
            if options.wait_for_sync {
                expected.push(("waitForSync".to_string(), "true".to_string()));
            }
            if options.return_new {
                expected.push(("returnNew".to_string(), "true".to_string()));
            }
            if options.return_old {
                expected.push(("returnOld".to_string(), "true".to_string()));
            }
            if options.silent {
                expected.push(("silent".to_string(), "true".to_string()));
            }
            if options.overwrite {
                expected.push(("overwrite".to_string(), "true".to_string()));
            }
            if mode != DocumentOverwriteMode::Conflict {
                expected.push(("overwriteMode".to_string(), mode.as_str().to_string()));
            }
            assert_eq!(read_back(&options.to_query()), expected);
            assert_eq!(list_settings(&options.settings()), expected);
        }
    }
}

#[test]
fn every_update_query_lists_exactly_what_differs_from_the_default() {
    for bits in 0..128u32 {
        let options = DocumentUpdateOptions {
            wait_for_sync: bits & 1 != 0,
            return_new: bits & 2 != 0,
            return_old: bits & 4 != 0,
            silent: bits & 8 != 0,
            ignore_revs: bits & 16 != 0,
            keep_null: bits & 32 != 0,
            merge_objects: bits & 64 != 0,
        };
        let mut expected = Vec::new();
        for (key, value, default) in [
            ("waitForSync", options.wait_for_sync, false),
            ("returnNew", options.return_new, false),
            ("returnOld", options.return_old, false),
            ("silent", options.silent, false),
            ("ignoreRevs", options.ignore_revs, true),
            ("keepNull", options.keep_null, true),
            ("mergeObjects", options.merge_objects, true),
        ] {
            if value != default {
                expected.push((key.to_string(), value.to_string()));
            }
        }
        assert_eq!(read_back(&options.to_query()), expected);
    }
}

#[test]
fn every_replace_and_remove_query_lists_exactly_what_differs_from_the_default() {
    for bits in 0..32u32 {
        let options = DocumentReplaceOptions {
            wait_for_sync: bits & 1 != 0,
            return_new: bits & 2 != 0,
            return_old: bits & 4 != 0,
            silent: bits & 8 != 0,
            ignore_revs: bits & 16 != 0,
        };
        let mut expected = Vec::new();
        for (key, value, default) in [
            ("waitForSync", options.wait_for_sync, false),
            ("returnNew", options.return_new, false),
            ("returnOld", options.return_old, false),
            ("silent", options.silent, false),
            ("ignoreRevs", options.ignore_revs, true),
        ] {
            if value != default {
                expected.push((key.to_string(), value.to_string()));
            }
        }
        assert_eq!(read_back(&options.to_query()), expected);
    }
    for bits in 0..8u32 {
        let options = DocumentRemoveOptions {
            wait_for_sync: bits & 1 != 0,
            return_old: bits & 2 != 0,
            silent: bits & 4 != 0,
        };
        let mut expected = Vec::new();
        for (key, value) in [
            ("waitForSync", options.wait_for_sync),
            ("returnOld", options.return_old),
            ("silent", options.silent),
        ] {
            if value {
                expected.push((key.to_string(), "true".to_string()));
            }
        }
        assert_eq!(read_back(&options.to_query()), expected);
    }
}

#[test]
fn settings_name_key_value_and_default() {
    assert_eq!(
        DocumentRemoveOptions::builder().return_old(true).build().settings(),
        vec![
            Setting { key: "waitForSync", value: "false", default: "false" },
            Setting { key: "returnOld", value: "true", default: "false" },
            Setting { key: "silent", value: "false", default: "false" },
        ]
    );
    assert_eq!(
        DocumentInsertOptions::builder()
            .overwrite_mode(DocumentOverwriteMode::Update)
            .build()
            .settings()[5],
        Setting { key: "overwriteMode", value: "update", default: "conflict" }
    );
    assert_eq!(
        DocumentUpdateOptions::default().settings()[4..],
        [
            Setting { key: "ignoreRevs", value: "true", default: "true" },
            Setting { key: "keepNull", value: "true", default: "true" },
            Setting { key: "mergeObjects", value: "true", default: "true" },
        ]
    );
}

#[test]
fn only_settings_off_their_default_are_listed() {
    let settings = vec![
        Setting { key: "a", value: "1", default: "1" },
        Setting { key: "b", value: "2", default: "1" },
        Setting { key: "c", value: "", default: "x" },
        Setting { key: "d", value: "x", default: "x" },
    ];
    assert_eq!(list_settings(&settings), owned(&[("b", "2"), ("c", "")]));
    assert_eq!(encode_settings(&settings), "b=2&c=");
    assert_eq!(list_settings(&Vec::new()), owned(&[]));
    assert_eq!(encode_settings(&Vec::new()), "");
}

#[test]
fn pairs_are_joined_by_ampersand_and_equals() {
    assert_eq!(encode_pairs(&owned(&[])), "");
    assert_eq!(encode_pairs(&owned(&[("silent", "true")])), "silent=true");
    assert_eq!(encode_pairs(&owned(&[("a", "1"), ("b", "2"), ("c", "3")])), "a=1&b=2&c=3");
    assert_eq!(encode_pairs(&owned(&[("", "")])), "=");
}

#[test]
fn queries_agree_with_serde_qs_on_what_they_list() {
    let modes = [
        DocumentOverwriteMode::Conflict,
        DocumentOverwriteMode::Ignore,
        DocumentOverwriteMode::Replace,
        DocumentOverwriteMode::Update,
    ];
    for bits in 0..32u32 {
        for mode in modes {
            let options = DocumentInsertOptions {
                wait_for_sync: bits & 1 != 0,
                return_new: bits & 2 != 0,
                return_old: bits & 4 != 0,
                silent: bits & 8 != 0,
                overwrite: bits & 16 != 0,
                overwrite_mode: mode,
            };
            let listed: BTreeMap<String, String> =
                list_settings(&options.settings()).into_iter().collect();
            if listed.is_empty() {
                assert_eq!(options.to_query(), "");
                continue;
            }
            let theirs = serde_qs::to_string(&listed).unwrap();
            let mut ours = read_back(&options.to_query());
            ours.sort();
            assert_eq!(read_back(&theirs), ours);
        }
    }
    for bits in 0..128u32 {
        let options = DocumentUpdateOptions {
            wait_for_sync: bits & 1 != 0,
            return_new: bits & 2 != 0,
            return_old: bits & 4 != 0,
            silent: bits & 8 != 0,
            ignore_revs: bits & 16 != 0,
            keep_null: bits & 32 != 0,
            merge_objects: bits & 64 != 0,
        };
        let listed: BTreeMap<String, String> =
            list_settings(&options.settings()).into_iter().collect();
        if listed.is_empty() {
            assert_eq!(options.to_query(), "");
            continue;
        }
        let theirs = serde_qs::to_string(&listed).unwrap();
        let mut ours = read_back(&options.to_query());
        ours.sort();
        assert_eq!(read_back(&theirs), ours);
    }
}
