//! Topic names: the namespace of an inbound topic, and the filters to
//! subscribe to.

use crate::text::{find_first, first_index, lemma_first_index_bounds, lemma_first_index_is, split, split_on};
use vstd::prelude::*;

verus! {

/// The character that ends the leading segment of a topic.
pub const TOPIC_DELIMITER: char = '/';

/// The character between the entries of a configured topic list.
pub const TOPIC_LIST_SEPARATOR: char = ',';

/// The namespace of a topic: what follows its first `/`, or the whole topic
/// where it holds no `/`.
pub open spec fn namespace_of(topic: Seq<char>) -> Seq<char> {
    let i = first_index(topic, TOPIC_DELIMITER);
    if 0 <= i < topic.len() {
        topic.skip(i + 1)
    } else {
        topic
    }
}

/// The topic filters of a configuration: each entry of the comma-separated
/// list, with the prefix put before it.
pub open spec fn subscription_filters(prefix: Seq<char>, topics: Seq<char>) -> Seq<Seq<char>> {
    split_on(topics, TOPIC_LIST_SEPARATOR).map_values(|t: Seq<char>| prefix + t)
}

/// Strips the leading segment from an inbound topic: returns what follows
/// the first `/`, or the topic itself where it holds no `/`.
pub fn normalize_topic<'a>(topic: &'a str) -> (namespace: &'a str)
    ensures
        namespace@ == namespace_of(topic@),
        !topic@.contains(TOPIC_DELIMITER) ==> namespace@ == topic@,
        forall|i: int|
            0 <= i < topic@.len() && #[trigger] topic@[i] == TOPIC_DELIMITER && (forall|j: int|
                0 <= j < i ==> topic@[j] != TOPIC_DELIMITER) ==> namespace@ == topic@.skip(i + 1),
{
    let n: usize = topic.unicode_len();
    let i: usize = find_first(topic, TOPIC_DELIMITER);
    proof {
        lemma_first_index_bounds(topic@, TOPIC_DELIMITER);
        assert forall|k: int|
            0 <= k < topic@.len() && #[trigger] topic@[k] == TOPIC_DELIMITER && (forall|j: int|
                0 <= j < k ==> topic@[j] != TOPIC_DELIMITER) implies k == i by {
            lemma_first_index_is(topic@, TOPIC_DELIMITER, k);
        }
    }
    if i < n {
        let rest = topic.substring_char(i + 1, n);
        assert(rest@ =~= topic@.skip(i + 1));
        rest
    } else {
        topic
    }
}

/// Lists the topic filters to subscribe to, in the order of the list.
pub fn subscription_topics(prefix: &str, topics: &str) -> (filters: Vec<String>)
    ensures
        filters.deep_view() == subscription_filters(prefix@, topics@),
{
    let entries: Vec<&str> = split(topics, TOPIC_LIST_SEPARATOR);
    let ghost pieces = split_on(topics@, TOPIC_LIST_SEPARATOR);
    let mut filters: Vec<String> = Vec::new();
    let mut k: usize = 0;
    while k < entries.len()
        invariant
            k <= entries.len(),
            entries.deep_view() == pieces,
            filters.len() == k,
            forall|j: int| 0 <= j < k ==> (#[trigger] filters[j])@ == prefix@ + pieces[j],
        decreases entries.len() - k,
    {
        let mut filter: String = prefix.to_owned();
        filter.append(entries[k]);
        assert(entries[k as int]@ == entries.deep_view()[k as int]);
        filters.push(filter);
        k = k + 1;
    }
    assert(filters.deep_view() =~= subscription_filters(prefix@, topics@));
    filters
}

/// The namespace of a topic with a `/` is what follows the first `/`.
pub proof fn lemma_namespace_after_first_delimiter(topic: Seq<char>, i: int)
    requires
        0 <= i < topic.len(),
        topic[i] == TOPIC_DELIMITER,
        forall|j: int| 0 <= j < i ==> topic[j] != TOPIC_DELIMITER,
    ensures
        namespace_of(topic) == topic.skip(i + 1),
{
    lemma_first_index_is(topic, TOPIC_DELIMITER, i);
}

/// A topic with a `/` has a first one, and its namespace starts right after
/// it: the namespace is a proper suffix of the topic.
pub proof fn lemma_namespace_with_delimiter(topic: Seq<char>)
    requires
        topic.contains(TOPIC_DELIMITER),
    ensures
        exists|i: int|
            0 <= i < topic.len() && topic[i] == TOPIC_DELIMITER && (forall|j: int|
                0 <= j < i ==> topic[j] != TOPIC_DELIMITER) && namespace_of(topic) == topic.skip(
                i + 1,
            ),
        namespace_of(topic).len() < topic.len(),
{
    lemma_first_index_bounds(topic, TOPIC_DELIMITER);
    let i = first_index(topic, TOPIC_DELIMITER);
    assert(0 <= i < topic.len() && topic[i] == TOPIC_DELIMITER && (forall|j: int|
        0 <= j < i ==> topic[j] != TOPIC_DELIMITER) && namespace_of(topic) == topic.skip(i + 1));
}

/// A topic without `/` is its own namespace: normalizing it changes nothing.
pub proof fn lemma_namespace_fixed_point(topic: Seq<char>)
    requires
        !topic.contains(TOPIC_DELIMITER),
    ensures
        namespace_of(topic) == topic,
{
    lemma_first_index_bounds(topic, TOPIC_DELIMITER);
}

} // verus!
