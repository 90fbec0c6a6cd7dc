//! Which names, key expressions and topics are accepted from outside.
use crate::text;
use vstd::prelude::*;
use vstd::string::*;

verus! {

/// Characters that a name may have.
pub const MAX_NAME_CHARS: usize = 64;

/// Characters that a key expression to query may have.
pub const MAX_QUERY_CHARS: usize = 512;

/// Characters that a trigger pattern may have.
pub const MAX_TRIGGER_CHARS: usize = 256;

/// Whether a character is a letter or digit of ASCII, a hyphen or an underscore.
pub open spec fn name_char(c: char) -> bool {
    ||| 'a' <= c <= 'z'
    ||| 'A' <= c <= 'Z'
    ||| '0' <= c <= '9'
    ||| c == '-'
    ||| c == '_'
}

/// Whether a character may stand in a topic.
pub open spec fn topic_char(c: char) -> bool {
    name_char(c) || c == '.' || c == '/'
}

/// Whether every character of a text is of a kind.
pub open spec fn all_chars(s: Seq<char>, kind: spec_fn(char) -> bool) -> bool {
    forall|i: int| 0 <= i < s.len() ==> kind(#[trigger] s[i])
}

/// Whether a character is a letter or digit of ASCII, a hyphen or an underscore.
fn is_name_char(c: char) -> (r: bool)
    ensures
        r == name_char(c),
{
    ('a' <= c && c <= 'z') || ('A' <= c && c <= 'Z') || ('0' <= c && c <= '9') || c == '-' || c
        == '_'
}

/// Whether a character may stand in a topic.
fn is_topic_char(c: char) -> (r: bool)
    ensures
        r == topic_char(c),
{
    is_name_char(c) || c == '.' || c == '/'
}

// ---- names -----------------------------------------------------------------

/// Whether a text can be a name: 1 to 64 letters, digits, hyphens and underscores.
pub open spec fn valid_name(name: Seq<char>) -> bool {
    1 <= name.len() <= MAX_NAME_CHARS && all_chars(name, |c: char| name_char(c))
}

/// What is wrong with a name, if anything is. `what` says what kind of name it is.
pub open spec fn name_fault(what: Seq<char>, name: Seq<char>) -> Option<Seq<char>> {
    if !(1 <= name.len() <= MAX_NAME_CHARS) {
        Some(what + " must be 1-64 characters"@)
    } else if !all_chars(name, |c: char| name_char(c)) {
        Some(what + " must contain only letters, digits, hyphens and underscores"@)
    } else {
        None
    }
}

/// Whether a check went as stated: success exactly if there is no fault, else the fault.
pub open spec fn reports(r: Result<(), String>, fault: Option<Seq<char>>) -> bool {
    match r {
        Ok(_) => fault is None,
        Err(message) => fault == Some(message@),
    }
}

fn check_name(what: &str, name: &str) -> (r: Result<(), String>)
    ensures
        reports(r, name_fault(what@, name@)),
{
    let n: usize = name.unicode_len();
    if n == 0 || n > MAX_NAME_CHARS {
        return Err(text::concat(what, " must be 1-64 characters"));
    }
    let chars = text::chars_of(name);
    for i in 0..chars.len()
        invariant
            chars@ == name@,
            1 <= name@.len() <= MAX_NAME_CHARS,
            forall|j: int| 0 <= j < i ==> name_char(#[trigger] name@[j]),
    {
        if !is_name_char(chars[i]) {
            assert(!name_char(name@[i as int]));
            return Err(
                text::concat(what, " must contain only letters, digits, hyphens and underscores"),
            );
        }
    }
    Ok(())
}

/// Checks the name of a node.
pub fn validate_node_name(name: &str) -> (r: Result<(), String>)
    ensures
        r is Ok == valid_name(name@),
        reports(r, name_fault("Node name"@, name@)),
{
    check_name("Node name", name)
}

/// Checks the name of a rule.
pub fn validate_rule_name(name: &str) -> (r: Result<(), String>)
    ensures
        r is Ok == valid_name(name@),
        reports(r, name_fault("Rule name"@, name@)),
{
    check_name("Rule name", name)
}

// ---- key expressions -------------------------------------------------------

/// What is wrong with a key expression to query, if anything is: it must name something below
/// `bubbaloop/`, not merely everything there.
pub open spec fn query_fault(key: Seq<char>) -> Option<Seq<char>> {
    if key.len() > MAX_QUERY_CHARS {
        Some("Key expression must be at most 512 characters"@)
    } else if !"bubbaloop/"@.is_prefix_of(key) {
        Some("Key expression must start with bubbaloop/"@)
    } else if key == "bubbaloop/**"@ || key == "bubbaloop/*"@ {
        Some("Key expression must not consist of a wildcard alone"@)
    } else {
        None
    }
}

/// Checks a key expression to query.
pub fn validate_query_key_expr(key: &str) -> (r: Result<(), String>)
    ensures
        reports(r, query_fault(key@)),
{
    if key.unicode_len() > MAX_QUERY_CHARS {
        return Err("Key expression must be at most 512 characters".to_owned());
    }
    if !text::starts_with(key, "bubbaloop/") {
        return Err("Key expression must start with bubbaloop/".to_owned());
    }
    if key.eq("bubbaloop/**") || key.eq("bubbaloop/*") {
        return Err("Key expression must not consist of a wildcard alone".to_owned());
    }
    Ok(())
}

/// What is wrong with a trigger pattern, if anything is.
pub open spec fn trigger_fault(pattern: Seq<char>) -> Option<Seq<char>> {
    if !(1 <= pattern.len() <= MAX_TRIGGER_CHARS) {
        Some("Trigger pattern must be 1-256 characters"@)
    } else if !"bubbaloop/"@.is_prefix_of(pattern) {
        Some("Trigger pattern must start with bubbaloop/"@)
    } else {
        None
    }
}

/// Checks the pattern of keys that trigger a rule.
pub fn validate_trigger_pattern(pattern: &str) -> (r: Result<(), String>)
    ensures
        reports(r, trigger_fault(pattern@)),
{
    let n: usize = pattern.unicode_len();
    if n == 0 || n > MAX_TRIGGER_CHARS {
        return Err("Trigger pattern must be 1-256 characters".to_owned());
    }
    if !text::starts_with(pattern, "bubbaloop/") {
        return Err("Trigger pattern must start with bubbaloop/".to_owned());
    }
    Ok(())
}

// ---- topics ----------------------------------------------------------------

/// What is wrong with a topic to publish to, if anything is.
pub open spec fn topic_fault(topic: Seq<char>) -> Option<Seq<char>> {
    if topic.len() == 0 {
        Some("Topic must not be empty"@)
    } else if !"bubbaloop/"@.is_prefix_of(topic) {
        Some("Topic must start with bubbaloop/"@)
    } else if topic.contains('*') {
        Some("Topic must not contain wildcards"@)
    } else if !all_chars(topic, |c: char| topic_char(c)) {
        Some("Topic contains invalid characters"@)
    } else {
        None
    }
}

/// Checks a topic to publish to.
pub fn validate_publish_topic(topic: &str) -> (r: Result<(), String>)
    ensures
        reports(r, topic_fault(topic@)),
{
    if topic.is_empty() {
        return Err("Topic must not be empty".to_owned());
    }
    if !text::starts_with(topic, "bubbaloop/") {
        return Err("Topic must start with bubbaloop/".to_owned());
    }
    if text::has_char(topic, '*') {
        return Err("Topic must not contain wildcards".to_owned());
    }
    let chars = text::chars_of(topic);
    for i in 0..chars.len()
        invariant
            chars@ == topic@,
            topic@.len() != 0,
            "bubbaloop/"@.is_prefix_of(topic@),
            !topic@.contains('*'),
            forall|j: int| 0 <= j < i ==> topic_char(#[trigger] topic@[j]),
    {
        if !is_topic_char(chars[i]) {
            assert(!topic_char(topic@[i as int]));
            return Err("Topic contains invalid characters".to_owned());
        }
    }
    Ok(())
}

/// A topic that may be published to lies below `bubbaloop/` and holds no wildcard.
pub proof fn accepted_topics_are_plain(topic: Seq<char>)
    requires
        topic_fault(topic) is None,
    ensures
        "bubbaloop/"@.is_prefix_of(topic),
        !topic.contains('*'),
{
}

/// An accepted name is a single part of a key: it holds neither a slash nor a wildcard, and
/// a topic made of accepted names is accepted.
pub proof fn accepted_names_make_accepted_topics(scope: Seq<char>, name: Seq<char>)
    requires
        valid_name(scope),
        valid_name(name),
    ensures
        !name.contains('/'),
        !name.contains('*'),
        topic_fault("bubbaloop/"@ + scope + "/"@ + name) is None,
{
    reveal_strlit("bubbaloop/");
    reveal_strlit("/");
    let kind = |c: char| name_char(c);
    let topic = "bubbaloop/"@ + scope + "/"@ + name;
    assert forall|i: int| 0 <= i < topic.len() implies topic_char(#[trigger] topic[i]) && topic[i]
        != '*' by {
        if i < 10 {
            assert(topic[i] == "bubbaloop/"@[i]);
        } else if i < 10 + scope.len() {
            assert(topic[i] == scope[i - 10]);
            assert(kind(scope[i - 10]));
        } else if i > 10 + scope.len() {
            assert(topic[i] == name[i - 11 - scope.len()]);
            assert(kind(name[i - 11 - scope.len()]));
        }
    }
    assert forall|i: int| 0 <= i < name.len() implies name[i] != '/' && name[i] != '*' by {
        assert(kind(name[i]));
    }
    assert("bubbaloop/"@ =~= topic.take(10));
}

/// A name is accepted exactly if it has 1 to 64 characters, each a letter or digit of ASCII, a
/// hyphen or an underscore. A fault tells first of the length, then of the characters, and what
/// kind of name it is about.
pub proof fn names_are_accepted_exactly_if(what: Seq<char>, name: Seq<char>)
    ensures
        ({
            let plain = forall|i: int|
                #![trigger name[i]]
                0 <= i < name.len() ==> ({
                    ||| 97 <= name[i] as int <= 122
                    ||| 65 <= name[i] as int <= 90
                    ||| 48 <= name[i] as int <= 57
                    ||| name[i] as int == 45
                    ||| name[i] as int == 95
                });
            &&& valid_name(name) <==> 1 <= name.len() <= 64 && plain
            &&& name_fault(what, name) is None <==> valid_name(name)
            &&& name.len() == 0 || name.len() > 64 ==> name_fault(what, name) == Some(
                what + " must be 1-64 characters"@,
            )
            &&& 1 <= name.len() <= 64 && !plain ==> name_fault(what, name) == Some(
                what + " must contain only letters, digits, hyphens and underscores"@,
            )
        }),
{
    let kind = |c: char| name_char(c);
    assert forall|i: int| 0 <= i < name.len() implies kind(#[trigger] name[i]) == ({
        ||| 97 <= name[i] as int <= 122
        ||| 65 <= name[i] as int <= 90
        ||| 48 <= name[i] as int <= 57
        ||| name[i] as int == 45
        ||| name[i] as int == 95
    }) by {}
    if all_chars(name, kind) {
        assert(forall|i: int| 0 <= i < name.len() ==> kind(#[trigger] name[i]));
    }
}

/// A key expression may be queried exactly if it has at most 512 characters, lies below
/// `bubbaloop/` and is more than a wildcard; a trigger pattern is accepted exactly if it has at
/// most 256 characters and lies there.
pub proof fn keys_are_accepted_exactly_if(key: Seq<char>)
    ensures
        query_fault(key) is None <==> key.len() <= 512 && "bubbaloop/"@.is_prefix_of(key) && key
            != "bubbaloop/*"@ && key != "bubbaloop/**"@,
        trigger_fault(key) is None <==> key.len() <= 256 && "bubbaloop/"@.is_prefix_of(key),
        key.len() > 512 ==> query_fault(key) == Some(
            "Key expression must be at most 512 characters"@,
        ),
        key.len() <= 512 && !"bubbaloop/"@.is_prefix_of(key) ==> query_fault(key) == Some(
            "Key expression must start with bubbaloop/"@,
        ),
        key == "bubbaloop/*"@ || key == "bubbaloop/**"@ ==> query_fault(key) == Some(
            "Key expression must not consist of a wildcard alone"@,
        ),
        key.len() == 0 || key.len() > 256 ==> trigger_fault(key) == Some(
            "Trigger pattern must be 1-256 characters"@,
        ),
        1 <= key.len() <= 256 && !"bubbaloop/"@.is_prefix_of(key) ==> trigger_fault(key) == Some(
            "Trigger pattern must start with bubbaloop/"@,
        ),
{
    reveal_strlit("bubbaloop/");
    reveal_strlit("bubbaloop/*");
    reveal_strlit("bubbaloop/**");
    assert("bubbaloop/"@ =~= "bubbaloop/*"@.take(10));
    assert("bubbaloop/"@ =~= "bubbaloop/**"@.take(10));
}

/// A topic may be published to exactly if it lies below `bubbaloop/` and is made of letters and
/// digits of ASCII, hyphens, underscores, dots and slashes. A wildcard is told of as such.
pub proof fn topics_are_accepted_exactly_if(topic: Seq<char>)
    ensures
        ({
            let plain = forall|i: int|
                #![trigger topic[i]]
                0 <= i < topic.len() ==> ({
                    ||| 97 <= topic[i] as int <= 122
                    ||| 65 <= topic[i] as int <= 90
                    ||| 45 <= topic[i] as int <= 57
                    ||| topic[i] as int == 95
                });
            let below = "bubbaloop/"@.is_prefix_of(topic);
            &&& topic_fault(topic) is None <==> below && plain
            &&& topic.len() == 0 ==> topic_fault(topic) == Some("Topic must not be empty"@)
            &&& topic.len() > 0 && !below ==> topic_fault(topic) == Some(
                "Topic must start with bubbaloop/"@,
            )
            &&& below && topic.contains('*') ==> topic_fault(topic) == Some(
                "Topic must not contain wildcards"@,
            )
            &&& below && !topic.contains('*') && !plain ==> topic_fault(topic) == Some(
                "Topic contains invalid characters"@,
            )
        }),
{
    reveal_strlit("bubbaloop/");
    let kind = |c: char| topic_char(c);
    assert forall|i: int| 0 <= i < topic.len() implies kind(#[trigger] topic[i]) == ({
        ||| 97 <= topic[i] as int <= 122
        ||| 65 <= topic[i] as int <= 90
        ||| 45 <= topic[i] as int <= 57
        ||| topic[i] as int == 95
    }) by {}
    if all_chars(topic, kind) {
        assert(forall|i: int| 0 <= i < topic.len() ==> kind(#[trigger] topic[i]));
    }
    if topic.contains('*') {
        let i = choose|i: int| 0 <= i < topic.len() && topic[i] == '*';
        assert(!kind(topic[i]));
    }
}

} // verus!
