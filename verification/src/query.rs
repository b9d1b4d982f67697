//! The query string of a request: one `key=value` for each setting that differs
//! from the server's default, joined by `&`.

use vstd::prelude::*;
use vstd::string::StringExecFns;

verus! {

/// One named setting of an operation, as it is written in a query string: its
/// key, its value as given and the value that the server assumes when the key is
/// absent.
#[derive(Clone, Copy, Debug, PartialEq, Eq)]
pub struct Setting {
    pub key: &'static str,
    pub value: &'static str,
    pub default: &'static str,
}

/// A setting as text.
pub ghost struct SettingView {
    pub key: Seq<char>,
    pub value: Seq<char>,
    pub default: Seq<char>,
}

impl View for Setting {
    type V = SettingView;

    open spec fn view(&self) -> SettingView {
        SettingView { key: self.key@, value: self.value@, default: self.default@ }
    }
}

impl SettingView {
    /// Whether the setting has to be sent: the server would assume another value.
    pub open spec fn is_set(self) -> bool {
        self.value != self.default
    }

    /// The pair that stands in the query for the setting.
    pub open spec fn pair(self) -> (Seq<char>, Seq<char>) {
        (self.key, self.value)
    }
}

/// The settings of a sequence of settings, as text.
pub open spec fn settings_view(settings: Seq<Setting>) -> Seq<SettingView> {
    settings.map_values(|s: Setting| s@)
}

/// The pairs of a sequence of owned pairs, as text.
pub open spec fn pairs_view(pairs: Seq<(String, String)>) -> Seq<(Seq<char>, Seq<char>)> {
    pairs.map_values(|p: (String, String)| (p.0@, p.1@))
}

/// The pairs that a query lists for `settings`: those that are set, in the order
/// of the settings.
pub open spec fn listed(settings: Seq<SettingView>) -> Seq<(Seq<char>, Seq<char>)>
    decreases settings.len(),
{
    if settings.len() == 0 {
        seq![]
    } else if settings.last().is_set() {
        listed(settings.drop_last()).push(settings.last().pair())
    } else {
        listed(settings.drop_last())
    }
}

/// The query string that lists `pairs`: `key=value`, joined by `&`.
pub open spec fn query_text(pairs: Seq<(Seq<char>, Seq<char>)>) -> Seq<char>
    decreases pairs.len(),
{
    if pairs.len() == 0 {
        seq![]
    } else if pairs.len() == 1 {
        pairs[0].0 + seq!['='] + pairs[0].1
    } else {
        query_text(pairs.drop_last()) + seq!['&'] + pairs.last().0 + seq!['='] + pairs.last().1
    }
}

/// The pairs that a query lists for `settings`.
pub fn list_settings(settings: &Vec<Setting>) -> (pairs: Vec<(String, String)>)
    ensures
        pairs_view(pairs@) == listed(settings_view(settings@)),
{
    let mut pairs: Vec<(String, String)> = Vec::new();
    let mut i: usize = 0;
    while i < settings.len()
        invariant
            i <= settings.len(),
            pairs_view(pairs@) == listed(settings_view(settings@).take(i as int)),
        decreases settings.len() - i,
    {
        let setting = settings[i];
        proof {
            let all = settings_view(settings@);
            assert(all.take(i + 1).drop_last() == all.take(i as int));
            assert(all.take(i + 1).last() == setting@);
        }
        let key = String::from_str(setting.key);
        let value = String::from_str(setting.value);
        let default = String::from_str(setting.default);
        if value != default {
            let ghost before = pairs@;
            pairs.push((key, value));
            assert(pairs_view(pairs@) == pairs_view(before).push(setting@.pair()));
        }
        i += 1;
    }
    assert(settings_view(settings@).take(i as int) == settings_view(settings@));
    pairs
}

/// The query string that lists `pairs`.
pub fn encode_pairs(pairs: &Vec<(String, String)>) -> (query: String)
    ensures
        query@ == query_text(pairs_view(pairs@)),
{
    let mut query = String::new();
    let mut i: usize = 0;
    while i < pairs.len()
        invariant
            i <= pairs.len(),
            query@ == query_text(pairs_view(pairs@).take(i as int)),
        decreases pairs.len() - i,
    {
        proof {
            let all = pairs_view(pairs@);
            assert(all.take(i + 1).drop_last() == all.take(i as int));
            assert(all.take(i + 1).last() == (pairs@[i as int].0@, pairs@[i as int].1@));
            assert(all.take(1)[0] == all.take(1).last());
        }
        if i > 0 {
            query.append("&");
            proof {
                reveal_strlit("&");
                assert("&"@ == seq!['&']);
            }
        }
        query.append(pairs[i].0.as_str());
        query.append("=");
        proof {
            reveal_strlit("=");
            assert("="@ == seq!['=']);
        }
        query.append(pairs[i].1.as_str());
        i += 1;
    }
    assert(pairs_view(pairs@).take(i as int) == pairs_view(pairs@));
    query
}

/// The query string for `settings`.
pub fn encode_settings(settings: &Vec<Setting>) -> (query: String)
    ensures
        query@ == query_text(listed(settings_view(settings@))),
{
    let pairs = list_settings(settings);
    encode_pairs(&pairs)
}

/// Whether no two settings have the same key.
pub open spec fn distinct_keys(settings: Seq<SettingView>) -> bool {
    forall|i: int, j: int|
        0 <= i < j < settings.len() ==> (#[trigger] settings[i]).key != (#[trigger] settings[j]).key
}

/// How many of the settings are set.
pub open spec fn count_set(settings: Seq<SettingView>) -> nat
    decreases settings.len(),
{
    if settings.len() == 0 {
        0
    } else if settings.last().is_set() {
        count_set(settings.drop_last()) + 1
    } else {
        count_set(settings.drop_last())
    }
}

/// Every pair that is listed belongs to a setting that is set: nothing else
/// stands in a query, and no setting stands there with its default.
pub proof fn lemma_listed_only_what_is_set(settings: Seq<SettingView>, i: int)
    requires
        0 <= i < listed(settings).len(),
    ensures
        exists|j: int|
            0 <= j < settings.len() && (#[trigger] settings[j]).is_set() && settings[j].pair()
                == listed(settings)[i],
    decreases settings.len(),
{
    if settings.len() > 0 {
        let rest = settings.drop_last();
        if settings.last().is_set() && i == listed(rest).len() {
            assert(settings[settings.len() - 1].is_set());
        } else {
            lemma_listed_only_what_is_set(rest, i);
            let j = choose|j: int|
                0 <= j < rest.len() && (#[trigger] rest[j]).is_set() && rest[j].pair() == listed(
                    rest,
                )[i];
            assert(settings[j] == rest[j]);
        }
    }
}

/// Every setting that is set is listed, with its key and its value.
pub proof fn lemma_listed_all_that_is_set(settings: Seq<SettingView>, j: int)
    requires
        0 <= j < settings.len(),
        settings[j].is_set(),
    ensures
        listed(settings).contains(settings[j].pair()),
    decreases settings.len(),
{
    let rest = settings.drop_last();
    if j == settings.len() - 1 {
        assert(listed(settings).last() == settings[j].pair());
    } else {
        lemma_listed_all_that_is_set(rest, j);
        let i = choose|i: int| 0 <= i < listed(rest).len() && listed(rest)[i] == rest[j].pair();
        assert(listed(settings)[i] == settings[j].pair());
    }
}

/// One pair is listed for each setting that is set, and none besides.
pub proof fn lemma_listed_one_for_one(settings: Seq<SettingView>)
    ensures
        listed(settings).len() == count_set(settings),
        listed(settings).len() <= settings.len(),
    decreases settings.len(),
{
    if settings.len() > 0 {
        lemma_listed_one_for_one(settings.drop_last());
    }
}

/// Where no two settings share a key, the key of a setting that is left at its
/// default does not occur in the list.
pub proof fn lemma_default_is_not_listed(settings: Seq<SettingView>, j: int, i: int)
    requires
        distinct_keys(settings),
        0 <= j < settings.len(),
        !settings[j].is_set(),
        0 <= i < listed(settings).len(),
    ensures
        listed(settings)[i].0 != settings[j].key,
{
    lemma_listed_only_what_is_set(settings, i);
    let k = choose|k: int|
        0 <= k < settings.len() && (#[trigger] settings[k]).is_set() && settings[k].pair()
            == listed(settings)[i];
    if k < j {
        assert(settings[k].key != settings[j].key);
    } else {
        assert(settings[j].key != settings[k].key);
    }
}

/// Where no two settings share a key, no key is listed twice.
pub proof fn lemma_listed_keys_distinct(settings: Seq<SettingView>, i: int, j: int)
    requires
        distinct_keys(settings),
        0 <= i < j < listed(settings).len(),
    ensures
        listed(settings)[i].0 != listed(settings)[j].0,
    decreases settings.len(),
{
    let rest = settings.drop_last();
    assert(distinct_keys(rest)) by {
        assert forall|a: int, b: int| 0 <= a < b < rest.len() implies (#[trigger] rest[a]).key != (
        #[trigger] rest[b]).key by {
            assert(settings[a].key != settings[b].key);
        }
    }
    if settings.last().is_set() && j == listed(rest).len() {
        lemma_listed_only_what_is_set(rest, i);
        let k = choose|k: int|
            0 <= k < rest.len() && (#[trigger] rest[k]).is_set() && rest[k].pair() == listed(
                rest,
            )[i];
        assert(settings[k].key != settings[settings.len() - 1].key);
    } else {
        lemma_listed_keys_distinct(rest, i, j);
    }
}

/// The position of the first `c` in `s`; the length of `s` where there is none.
pub open spec fn first_index(s: Seq<char>, c: char) -> int
    decreases s.len(),
{
    if s.len() == 0 {
        0
    } else if s[0] == c {
        0
    } else {
        1 + first_index(s.drop_first(), c)
    }
}

/// The position of the last `c` in `s`; -1 where there is none.
pub open spec fn last_index(s: Seq<char>, c: char) -> int
    decreases s.len(),
{
    if s.len() == 0 {
        -1
    } else if s.last() == c {
        s.len() - 1
    } else {
        last_index(s.drop_last(), c)
    }
}

/// The pair that an item of a query stands for: what is before its first `=` and
/// what is after it.
pub open spec fn pair_of(item: Seq<char>) -> (Seq<char>, Seq<char>) {
    let at = first_index(item, '=');
    if 0 <= at < item.len() {
        (item.subrange(0, at), item.subrange(at + 1, item.len() as int))
    } else {
        (item, seq![])
    }
}

/// The pairs that a query string lists: its items between the `&`, each taken
/// apart at its first `=`.
pub open spec fn query_pairs(query: Seq<char>) -> Seq<(Seq<char>, Seq<char>)>
    decreases query.len(),
{
    let at = last_index(query, '&');
    if query.len() == 0 {
        seq![]
    } else if 0 <= at < query.len() {
        query_pairs(query.subrange(0, at)).push(pair_of(query.subrange(at + 1, query.len() as int)))
    } else {
        seq![pair_of(query)]
    }
}

/// Whether the pairs can be told apart in a query string: no key holds `&` or
/// `=`, and no value holds `&`.
pub open spec fn separable(pairs: Seq<(Seq<char>, Seq<char>)>) -> bool {
    forall|i: int|
        0 <= i < pairs.len() ==> !(#[trigger] pairs[i]).0.contains('&') && !pairs[i].0.contains('=')
            && !pairs[i].1.contains('&')
}

proof fn lemma_first_index_found(before: Seq<char>, after: Seq<char>, c: char)
    requires
        !before.contains(c),
    ensures
        first_index(before + seq![c] + after, c) == before.len(),
    decreases before.len(),
{
    let s = before + seq![c] + after;
    if before.len() == 0 {
        assert(s[0] == c);
    } else {
        assert(before[0] != c);
        assert(s[0] == before[0]);
        assert(s.drop_first() == before.drop_first() + seq![c] + after);
        assert(!before.drop_first().contains(c)) by {
            assert forall|i: int| 0 <= i < before.drop_first().len() implies before.drop_first()[i]
                != c by {
                assert(before[i + 1] != c);
            }
        }
        lemma_first_index_found(before.drop_first(), after, c);
    }
}

proof fn lemma_last_index_found(before: Seq<char>, after: Seq<char>, c: char)
    requires
        !after.contains(c),
    ensures
        last_index(before + seq![c] + after, c) == before.len(),
    decreases after.len(),
{
    let s = before + seq![c] + after;
    if after.len() == 0 {
        assert(s.last() == c);
    } else {
        assert(after.last() != c);
        assert(s.last() == after.last());
        assert(s.drop_last() == before + seq![c] + after.drop_last());
        assert(!after.drop_last().contains(c)) by {
            assert forall|i: int| 0 <= i < after.drop_last().len() implies after.drop_last()[i]
                != c by {
                assert(after[i] != c);
            }
        }
        lemma_last_index_found(before, after.drop_last(), c);
    }
}

proof fn lemma_last_index_missing(s: Seq<char>, c: char)
    requires
        !s.contains(c),
    ensures
        last_index(s, c) == -1,
    decreases s.len(),
{
    if s.len() > 0 {
        assert(s.last() != c);
        assert(!s.drop_last().contains(c)) by {
            assert forall|i: int| 0 <= i < s.drop_last().len() implies s.drop_last()[i] != c by {
                assert(s[i] != c);
            }
        }
        lemma_last_index_missing(s.drop_last(), c);
    }
}

proof fn lemma_item_read_back(key: Seq<char>, value: Seq<char>)
    requires
        !key.contains('='),
    ensures
        pair_of(key + seq!['='] + value) == (key, value),
{
    let item = key + seq!['='] + value;
    lemma_first_index_found(key, value, '=');
    assert(item.subrange(0, key.len() as int) == key);
    assert(item.subrange(key.len() as int + 1, item.len() as int) == value);
}

proof fn lemma_item_has_no_separator(key: Seq<char>, value: Seq<char>)
    requires
        !key.contains('&'),
        !value.contains('&'),
    ensures
        !(key + seq!['='] + value).contains('&'),
{
    let item = key + seq!['='] + value;
    assert forall|i: int| 0 <= i < item.len() implies item[i] != '&' by {
        if i < key.len() {
            assert(key[i] != '&');
        } else if i > key.len() {
            assert(value[i - key.len() - 1] != '&');
        }
    }
}

proof fn lemma_single_item_read_back(key: Seq<char>, value: Seq<char>)
    requires
        !key.contains('&'),
        !key.contains('='),
        !value.contains('&'),
    ensures
        query_pairs(key + seq!['='] + value) == seq![(key, value)],
{
    let item = key + seq!['='] + value;
    assert(item.len() > 0);
    lemma_item_read_back(key, value);
    lemma_item_has_no_separator(key, value);
    lemma_last_index_missing(item, '&');
}

proof fn lemma_last_item_read_back(head: Seq<char>, key: Seq<char>, value: Seq<char>)
    requires
        !key.contains('&'),
        !key.contains('='),
        !value.contains('&'),
    ensures
        query_pairs(head + seq!['&'] + (key + seq!['='] + value)) == query_pairs(head).push(
            (key, value),
        ),
{
    let item = key + seq!['='] + value;
    let query = head + seq!['&'] + item;
    lemma_item_read_back(key, value);
    lemma_item_has_no_separator(key, value);
    lemma_last_index_found(head, item, '&');
    assert(query.len() > 0);
    assert(query.subrange(0, head.len() as int) == head);
    assert(query.subrange(head.len() as int + 1, query.len() as int) == item);
}

/// A query string lists the pairs it was written from, and no others: read back
/// item by item, it gives those pairs in their order.
pub proof fn lemma_query_reads_back(pairs: Seq<(Seq<char>, Seq<char>)>)
    requires
        separable(pairs),
    ensures
        query_pairs(query_text(pairs)) == pairs,
    decreases pairs.len(),
{
    if pairs.len() == 1 {
        let only = pairs[0];
        lemma_single_item_read_back(only.0, only.1);
        assert(pairs == seq![only]);
    } else if pairs.len() > 1 {
        let rest = pairs.drop_last();
        let last = pairs.last();
        assert(separable(rest)) by {
            assert forall|i: int| 0 <= i < rest.len() implies !(#[trigger] rest[i]).0.contains('&')
                && !rest[i].0.contains('=') && !rest[i].1.contains('&') by {
                assert(rest[i] == pairs[i]);
            }
        }
        lemma_query_reads_back(rest);
        lemma_last_item_read_back(query_text(rest), last.0, last.1);
        assert(query_text(pairs) == query_text(rest) + seq!['&'] + (last.0 + seq!['='] + last.1));
        assert(pairs == rest.push(last));
    }
}

/// Whether the settings can be told apart in a query string: no key holds `&`
/// or `=`, and no value holds `&`.
pub open spec fn plain(settings: Seq<SettingView>) -> bool {
    forall|j: int|
        0 <= j < settings.len() ==> !(#[trigger] settings[j]).key.contains('&')
            && !settings[j].key.contains('=') && !settings[j].value.contains('&')
}

/// The query string for settings with plain and distinct keys lists exactly the
/// settings that are set, one pair for each: a setting is in the string if and
/// only if it differs from its default, it is there with its own key and value,
/// the key of a setting left at its default is not there at all, and nothing
/// else is.
pub proof fn lemma_query_lists_exactly_what_is_set(settings: Seq<SettingView>)
    requires
        plain(settings),
        distinct_keys(settings),
    ensures
        query_pairs(query_text(listed(settings))) == listed(settings),
        listed(settings).len() == count_set(settings),
        forall|j: int|
            0 <= j < settings.len() ==> ((#[trigger] settings[j]).is_set() <==> listed(
                settings,
            ).contains(settings[j].pair())),
        forall|j: int, i: int|
            0 <= j < settings.len() && !(#[trigger] settings[j]).is_set() && 0 <= i < listed(
                settings,
            ).len() ==> (#[trigger] listed(settings)[i]).0 != settings[j].key,
        forall|i: int|
            0 <= i < listed(settings).len() ==> exists|j: int|
                0 <= j < settings.len() && (#[trigger] settings[j]).is_set() && settings[j].pair()
                    == #[trigger] listed(settings)[i],
        forall|i: int, k: int|
            0 <= i < k < listed(settings).len() ==> (#[trigger] listed(settings)[i]).0 != (
            #[trigger] listed(settings)[k]).0,
{
    let pairs = listed(settings);
    assert(separable(pairs)) by {
        assert forall|i: int| 0 <= i < pairs.len() implies !(#[trigger] pairs[i]).0.contains('&')
            && !pairs[i].0.contains('=') && !pairs[i].1.contains('&') by {
            lemma_listed_only_what_is_set(settings, i);
        }
    }
    lemma_query_reads_back(pairs);
    lemma_listed_one_for_one(settings);
    assert forall|i: int| 0 <= i < pairs.len() implies exists|j: int|
        0 <= j < settings.len() && (#[trigger] settings[j]).is_set() && settings[j].pair()
            == #[trigger] pairs[i] by {
        lemma_listed_only_what_is_set(settings, i);
    }
    assert forall|j: int, i: int|
        0 <= j < settings.len() && !(#[trigger] settings[j]).is_set() && 0 <= i
            < pairs.len() implies (#[trigger] pairs[i]).0 != settings[j].key by {
        lemma_default_is_not_listed(settings, j, i);
    }
    assert forall|j: int| 0 <= j < settings.len() implies ((#[trigger] settings[j]).is_set()
        <==> pairs.contains(settings[j].pair())) by {
        if settings[j].is_set() {
            lemma_listed_all_that_is_set(settings, j);
        } else if pairs.contains(settings[j].pair()) {
            let i = choose|i: int| 0 <= i < pairs.len() && pairs[i] == settings[j].pair();
            lemma_default_is_not_listed(settings, j, i);
        }
    }
    assert forall|i: int, k: int| 0 <= i < k < pairs.len() implies (#[trigger] pairs[i]).0 != (
    #[trigger] pairs[k]).0 by {
        lemma_listed_keys_distinct(settings, i, k);
    }
}

} // verus!
