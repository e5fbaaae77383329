//! One `-m` entry: the containers it is for, and the url to open for them.
//!
//! On the command line an entry is a token `selector;value;base_url`, where
//! the selector is one of the words `name`, `image` and `label`. The value
//! is any text without a separator, the empty text too. The base url is all
//! that follows the second separator, further separators included.
//!
//! A token can be wrong in two ways, and the selector is judged first: a
//! token that does not begin with a selector word is refused for its
//! selector, however many parts it has; one that does, but has fewer than
//! three parts, is refused for its missing url.

use vstd::prelude::*;

use crate::error::ConfigError;
use crate::split::{
    lemma_split_once_none, lemma_split_once_of_joined, lemma_split_once_rejoins, split_once,
    SEPARATOR,
};

verus! {

/// A parsed `-m` entry. Of `name`, `image` and `label` exactly one is set:
/// it says by which attribute a container is matched, and with what value.
#[derive(Debug, Clone)]
pub struct BaseUrlMap {
    pub name: Option<String>,
    pub image: Option<String>,
    pub label: Option<String>,
    pub base_url: String,
}

/// A `BaseUrlMap` as plain text values.
pub struct BaseUrlMapView {
    pub name: Option<Seq<char>>,
    pub image: Option<Seq<char>>,
    pub label: Option<Seq<char>>,
    pub base_url: Seq<char>,
}

impl View for BaseUrlMap {
    type V = BaseUrlMapView;

    open spec fn view(&self) -> BaseUrlMapView {
        BaseUrlMapView {
            name: self.name.deep_view(),
            image: self.image.deep_view(),
            label: self.label.deep_view(),
            base_url: self.base_url@,
        }
    }
}

impl DeepView for BaseUrlMap {
    type V = BaseUrlMapView;

    open spec fn deep_view(&self) -> BaseUrlMapView {
        self@
    }
}

impl BaseUrlMapView {
    /// Exactly one selector is set.
    pub open spec fn wf(self) -> bool {
        ||| self.name is Some && self.image is None && self.label is None
        ||| self.name is None && self.image is Some && self.label is None
        ||| self.name is None && self.image is None && self.label is Some
    }
}

impl BaseUrlMap {
    /// Exactly one selector is set.
    pub open spec fn wf(&self) -> bool {
        self@.wf()
    }
}

/// Whether `keyword` is one of the three selector words, letter for letter.
pub open spec fn is_selector(keyword: Seq<char>) -> bool {
    keyword == "name"@ || keyword == "image"@ || keyword == "label"@
}

/// The entry that a selector word, a value and a base url stand for: the
/// value goes to the field that the word names, the two others stay unset.
pub open spec fn mapping_of(keyword: Seq<char>, value: Seq<char>, base_url: Seq<char>)
    -> BaseUrlMapView {
    BaseUrlMapView {
        name: if keyword == "name"@ { Some(value) } else { None },
        image: if keyword == "image"@ { Some(value) } else { None },
        label: if keyword == "label"@ { Some(value) } else { None },
        base_url,
    }
}

/// A token cut into at most three parts: at its first separator, and what
/// follows once more at the next. A token without a separator is one part,
/// and the third part keeps any separators of its own.
pub open spec fn token_parts(token: Seq<char>) -> Seq<Seq<char>> {
    match split_once(token) {
        None => seq![token],
        Some((first, rest)) => match split_once(rest) {
            None => seq![first, rest],
            Some((second, third)) => seq![first, second, third],
        },
    }
}

/// What a `-m` token means.
///
/// The first part has to be a selector word, else the token is refused for
/// its selector. After that the token needs all three parts, else it is
/// refused for its missing url: so is a selector word that stands alone.
/// What is left is an entry, made of the three parts as they are.
pub open spec fn parse_token(token: Seq<char>) -> Result<BaseUrlMapView, ConfigError> {
    let parts = token_parts(token);
    if !is_selector(parts[0]) {
        Err(ConfigError::MapSelector)
    } else if parts.len() < 3 {
        Err(ConfigError::MapUrl)
    } else {
        Ok(mapping_of(parts[0], parts[1], parts[2]))
    }
}

/// A parse result with its entry as plain text values.
pub open spec fn parsed_view(parsed: Result<BaseUrlMap, ConfigError>) -> Result<
    BaseUrlMapView,
    ConfigError,
> {
    match parsed {
        Ok(entry) => Ok(entry@),
        Err(e) => Err(e),
    }
}

/// The three selector words differ from one another, and none of them holds
/// a separator.
pub proof fn lemma_selector_words()
    ensures
        "name"@ != "image"@,
        "name"@ != "label"@,
        "image"@ != "label"@,
        forall|keyword: Seq<char>| #[trigger] is_selector(keyword) ==> !keyword.contains(SEPARATOR),
{
    reveal_strlit("name");
    reveal_strlit("image");
    reveal_strlit("label");
    assert("name"@.len() == 4);
    assert("image"@.len() == 5);
    assert("image"@[0] == 'i');
    assert("label"@[0] == 'l');
    assert forall|keyword: Seq<char>| #[trigger] is_selector(keyword) implies !keyword.contains(
        SEPARATOR,
    ) by {
        assert forall|i: int| 0 <= i < keyword.len() implies keyword[i] != SEPARATOR by {}
    }
}

/// The entry for a selector word has exactly one selector set.
pub proof fn lemma_mapping_of_wf(keyword: Seq<char>, value: Seq<char>, base_url: Seq<char>)
    requires
        is_selector(keyword),
    ensures
        mapping_of(keyword, value, base_url).wf(),
{
    lemma_selector_words();
}

/// Every well-formed token is understood: a selector word, a value without
/// a separator and any base url, written with separators between them,
/// parse to the entry made of the three.
pub proof fn lemma_parse_token_of_joined(
    keyword: Seq<char>,
    value: Seq<char>,
    base_url: Seq<char>,
)
    requires
        is_selector(keyword),
        !value.contains(SEPARATOR),
    ensures
        parse_token(keyword.push(SEPARATOR) + (value.push(SEPARATOR) + base_url)) == Ok::<
            BaseUrlMapView,
            ConfigError,
        >(mapping_of(keyword, value, base_url)),
{
    lemma_selector_words();
    lemma_split_once_of_joined(keyword, value.push(SEPARATOR) + base_url);
    lemma_split_once_of_joined(value, base_url);
}

/// Only well-formed tokens are understood: a token that parses is a
/// selector word, a value without a separator and a base url with
/// separators between them, and its entry is the one made of the three,
/// with exactly one selector set.
pub proof fn lemma_parse_token_ok(token: Seq<char>)
    requires
        parse_token(token) is Ok,
    ensures
        parse_token(token)->Ok_0.wf(),
        exists|keyword: Seq<char>, value: Seq<char>, base_url: Seq<char>|
            #![trigger mapping_of(keyword, value, base_url)]
            {
                &&& is_selector(keyword)
                &&& !value.contains(SEPARATOR)
                &&& token == keyword.push(SEPARATOR) + (value.push(SEPARATOR) + base_url)
                &&& parse_token(token) == Ok::<BaseUrlMapView, ConfigError>(
                    mapping_of(keyword, value, base_url),
                )
            },
{
    let (keyword, rest) = split_once(token)->0;
    let (value, base_url) = split_once(rest)->0;
    lemma_split_once_rejoins(token);
    lemma_split_once_rejoins(rest);
    lemma_mapping_of_wf(keyword, value, base_url);
    assert(parse_token(token) == Ok::<BaseUrlMapView, ConfigError>(
        mapping_of(keyword, value, base_url),
    ));
}

/// A token whose first part is not a selector word is refused for its
/// selector, whether it ends there or goes on, and whatever follows.
pub proof fn lemma_unknown_selector(first: Seq<char>, rest: Seq<char>)
    requires
        !first.contains(SEPARATOR),
        !is_selector(first),
    ensures
        parse_token(first) == Err::<BaseUrlMapView, ConfigError>(ConfigError::MapSelector),
        parse_token(first.push(SEPARATOR) + rest) == Err::<BaseUrlMapView, ConfigError>(
            ConfigError::MapSelector,
        ),
{
    lemma_split_once_none(first);
    lemma_split_once_of_joined(first, rest);
}

/// A token that begins with a selector word and stops before its third
/// part is refused for its missing url: the word alone, and the word with
/// a value.
pub proof fn lemma_missing_url(keyword: Seq<char>, value: Seq<char>)
    requires
        is_selector(keyword),
        !value.contains(SEPARATOR),
    ensures
        parse_token(keyword) == Err::<BaseUrlMapView, ConfigError>(ConfigError::MapUrl),
        parse_token(keyword.push(SEPARATOR) + value) == Err::<BaseUrlMapView, ConfigError>(
            ConfigError::MapUrl,
        ),
{
    lemma_selector_words();
    lemma_split_once_none(keyword);
    lemma_split_once_none(value);
    lemma_split_once_of_joined(keyword, value);
}

} // verus!
