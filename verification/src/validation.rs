//! The rules that user-supplied text must meet before it is stored.
//!
//! Each check is stated as a spec function that gives the message of the first
//! rule that the input breaks, or `None`; the executable check answers with a
//! bad request that carries exactly that message.

use vstd::prelude::*;

use crate::error::{AppError, answers};
use crate::text::{
    byte_len, count_graphemes, grapheme_count, inappropriate, is_inappropriate,
    is_url_component_safe, url_safe, utf8_len,
};

verus! {

broadcast use vstd::string::group_string_axioms;

/// Longest name, title or tag, in user-perceived characters.
pub const SMALL_STRING_MAX_GRAPHEME_LENGTH: usize = 80;
/// Longest name, in bytes.
pub const SMALL_STRING_MAX_BYTE_LENGTH: usize = 640;
/// Longest comment, in user-perceived characters.
pub const MEDIUM_STRING_MAX_GRAPHEME_LENGTH: usize = 200;
/// Longest comment, in bytes.
pub const MEDIUM_STRING_MAX_BYTE_LENGTH: usize = 1600;
/// Longest description or changelog, in user-perceived characters.
pub const LARGE_STRING_MAX_GRAPHEME_LENGTH: usize = 500;
/// Longest description or changelog, in bytes.
pub const LARGE_STRING_MAX_BYTE_LENGTH: usize = 4000;
/// Most tags a font may carry.
pub const MAX_TAGS: usize = 10;
/// Largest snippet source, in bytes.
pub const MAX_SNIPPET_SOURCE_BYTES: usize = 16384;

fn reject(msg: &str) -> (r: Result<(), AppError>)
    ensures
        answers(r, Some(msg@)),
{
    Err(AppError::bad_request(msg.to_owned()))
}

// ---------------------------------------------------------------- comments

/// The first rule that a comment breaks.
pub open spec fn comment_problem(text: Seq<char>) -> Option<Seq<char>> {
    if grapheme_count(text) > 200 {
        Some("Comment too long (max 200 characters)"@)
    } else if utf8_len(text) > 1600 {
        Some("Comment exceeded byte limit (max 1600 bytes)"@)
    } else if inappropriate(text) {
        Some("Comment contains inappropriate content"@)
    } else {
        None
    }
}

/// Checks the text of a new comment.
pub fn validate_comment(text: &str) -> (r: Result<(), AppError>)
    ensures
        answers(r, comment_problem(text@)),
{
    if count_graphemes(text) > MEDIUM_STRING_MAX_GRAPHEME_LENGTH {
        return reject("Comment too long (max 200 characters)");
    }
    if byte_len(text) > MEDIUM_STRING_MAX_BYTE_LENGTH {
        return reject("Comment exceeded byte limit (max 1600 bytes)");
    }
    if is_inappropriate(text) {
        return reject("Comment contains inappropriate content");
    }
    Ok(())
}

// ---------------------------------------------------------------- fonts

/// The first rule that a font's name breaks.
pub open spec fn font_name_problem(name: Seq<char>) -> Option<Seq<char>> {
    if inappropriate(name) {
        Some("Name contains inappropriate content"@)
    } else if grapheme_count(name) > 80 {
        Some("Name too long (max 80 characters)"@)
    } else if utf8_len(name) > 640 {
        Some("Name exceeded byte limit (max 640 bytes)"@)
    } else {
        None
    }
}

/// The first rule that a font's slug breaks.
pub open spec fn slug_problem(slug: Seq<char>) -> Option<Seq<char>> {
    if slug.len() == 0 {
        Some("Slug is required"@)
    } else if utf8_len(slug) > 80 {
        Some("Slug too long (max 80 characters)"@)
    } else if inappropriate(slug) {
        Some("Slug contains inappropriate content"@)
    } else if !url_safe(slug) {
        Some("Slug contains invalid characters"@)
    } else {
        None
    }
}

/// The first rule that a font's description breaks.
pub open spec fn description_problem(desc: Seq<char>) -> Option<Seq<char>> {
    if inappropriate(desc) {
        Some("Description contains inappropriate content"@)
    } else if grapheme_count(desc) > 500 {
        Some("Description too long (max 500 characters)"@)
    } else if utf8_len(desc) > 4000 {
        Some("Description exceeded byte limit (max 4000 bytes)"@)
    } else {
        None
    }
}

/// The first rule that one tag breaks.
pub open spec fn tag_problem(tag: Seq<char>) -> Option<Seq<char>> {
    if utf8_len(tag) > 80 {
        Some("Tag too long (max 80 characters)"@)
    } else if inappropriate(tag) {
        Some("Tag contains inappropriate content"@)
    } else {
        None
    }
}

/// The first rule that some tag of the list breaks, the tags taken in order.
pub open spec fn tags_problem(tags: Seq<Seq<char>>) -> Option<Seq<char>>
    decreases tags.len(),
{
    if tags.len() == 0 {
        None
    } else if tag_problem(tags[0]) is Some {
        tag_problem(tags[0])
    } else {
        tags_problem(tags.drop_first())
    }
}

/// The first rule that a changelog breaks.
pub open spec fn changelog_problem(log: Seq<char>) -> Option<Seq<char>> {
    if inappropriate(log) {
        Some("Changelog contains inappropriate content"@)
    } else if grapheme_count(log) > 500 {
        Some("Changelog too long (max 500 characters)"@)
    } else if utf8_len(log) > 4000 {
        Some("Changelog exceeded byte limit (max 4000 bytes)"@)
    } else {
        None
    }
}

/// The views of a list of strings.
pub open spec fn views(v: Seq<String>) -> Seq<Seq<char>> {
    v.map_values(|s: String| s@)
}

/// The first rule that a font submission breaks.
pub open spec fn font_problem(
    name: Seq<char>,
    slug: Seq<char>,
    description: Option<Seq<char>>,
    tags: Seq<Seq<char>>,
    changelog: Option<Seq<char>>,
) -> Option<Seq<char>> {
    if font_name_problem(name) is Some {
        font_name_problem(name)
    } else if slug_problem(slug) is Some {
        slug_problem(slug)
    } else if description is Some && description_problem(description->0) is Some {
        description_problem(description->0)
    } else if tags_problem(tags) is Some {
        tags_problem(tags)
    } else if tags.len() > 10 {
        Some("Too many tags"@)
    } else if changelog is Some && changelog_problem(changelog->0) is Some {
        changelog_problem(changelog->0)
    } else {
        None
    }
}

/// The view of an optional string.
pub open spec fn opt_view(o: Option<String>) -> Option<Seq<char>> {
    match o {
        Some(s) => Some(s@),
        None => None,
    }
}

fn check_font_name(name: &str) -> (r: Result<(), AppError>)
    ensures
        answers(r, font_name_problem(name@)),
{
    if is_inappropriate(name) {
        return reject("Name contains inappropriate content");
    }
    if count_graphemes(name) > SMALL_STRING_MAX_GRAPHEME_LENGTH {
        return reject("Name too long (max 80 characters)");
    }
    if byte_len(name) > SMALL_STRING_MAX_BYTE_LENGTH {
        return reject("Name exceeded byte limit (max 640 bytes)");
    }
    Ok(())
}

fn check_slug(slug: &str) -> (r: Result<(), AppError>)
    ensures
        answers(r, slug_problem(slug@)),
{
    if slug.is_empty() {
        return reject("Slug is required");
    }
    if byte_len(slug) > SMALL_STRING_MAX_GRAPHEME_LENGTH {
        return reject("Slug too long (max 80 characters)");
    }
    if is_inappropriate(slug) {
        return reject("Slug contains inappropriate content");
    }
    if !is_url_component_safe(slug) {
        return reject("Slug contains invalid characters");
    }
    Ok(())
}

fn check_description(desc: &str) -> (r: Result<(), AppError>)
    ensures
        answers(r, description_problem(desc@)),
{
    if is_inappropriate(desc) {
        return reject("Description contains inappropriate content");
    }
    if count_graphemes(desc) > LARGE_STRING_MAX_GRAPHEME_LENGTH {
        return reject("Description too long (max 500 characters)");
    }
    if byte_len(desc) > LARGE_STRING_MAX_BYTE_LENGTH {
        return reject("Description exceeded byte limit (max 4000 bytes)");
    }
    Ok(())
}

fn check_tags(tags: &Vec<String>) -> (r: Result<(), AppError>)
    ensures
        answers(r, tags_problem(views(tags@))),
{
    let ghost all = views(tags@);
    let n: usize = tags.len();
    let mut i: usize = 0;
    assert(all.skip(0) =~= all);
    while i < n
        invariant
            n == tags@.len(),
            all == views(tags@),
            0 <= i <= n,
            tags_problem(all) == tags_problem(all.skip(i as int)),
        decreases n - i,
    {
        let tag: &str = tags[i].as_str();
        assert(all.skip(i as int)[0] == tag@);
        assert(all.skip(i as int).drop_first() =~= all.skip(i + 1));
        if byte_len(tag) > SMALL_STRING_MAX_GRAPHEME_LENGTH {
            return reject("Tag too long (max 80 characters)");
        }
        if is_inappropriate(tag) {
            return reject("Tag contains inappropriate content");
        }
        i = i + 1;
    }
    assert(all.skip(n as int).len() == 0);
    Ok(())
}

fn check_changelog(log: &str) -> (r: Result<(), AppError>)
    ensures
        answers(r, changelog_problem(log@)),
{
    if is_inappropriate(log) {
        return reject("Changelog contains inappropriate content");
    }
    if count_graphemes(log) > LARGE_STRING_MAX_GRAPHEME_LENGTH {
        return reject("Changelog too long (max 500 characters)");
    }
    if byte_len(log) > LARGE_STRING_MAX_BYTE_LENGTH {
        return reject("Changelog exceeded byte limit (max 4000 bytes)");
    }
    Ok(())
}

/// Checks the fields of a font submission: its name, slug, optional
/// description, tags and optional changelog, in that order.
pub fn validate_font(
    name: &str,
    slug: &str,
    description: &Option<String>,
    tags_input: &Vec<String>,
    changelog: &Option<String>,
) -> (r: Result<(), AppError>)
    ensures
        answers(
            r,
            font_problem(name@, slug@, opt_view(*description), views(tags_input@), opt_view(*changelog)),
        ),
{
    check_font_name(name)?;
    check_slug(slug)?;
    if let Some(desc) = description {
        check_description(desc.as_str())?;
    }
    check_tags(tags_input)?;
    if tags_input.len() > MAX_TAGS {
        return reject("Too many tags");
    }
    if let Some(log) = changelog {
        check_changelog(log.as_str())?;
    }
    Ok(())
}

// ---------------------------------------------------------------- snippets

/// The first rule that a snippet submission breaks.
pub open spec fn snippet_problem(
    name: Seq<char>,
    description: Option<Seq<char>>,
    source: Seq<char>,
) -> Option<Seq<char>> {
    if name.len() == 0 {
        Some("Name is required"@)
    } else if grapheme_count(name) > 80 {
        Some("Name too long (max 80 characters)"@)
    } else if utf8_len(name) > 640 {
        Some("Name exceeded byte limit (max 640 bytes)"@)
    } else if inappropriate(name) {
        Some("Name contains inappropriate content"@)
    } else if description is Some && grapheme_count(description->0) > 500 {
        Some("Description too long (max 500 characters)"@)
    } else if description is Some && inappropriate(description->0) {
        Some("Description contains inappropriate content"@)
    } else if description is Some && utf8_len(description->0) > 4000 {
        Some("Description exceeded byte limit (max 4000 bytes)"@)
    } else if source.len() == 0 {
        Some("Source is required"@)
    } else if utf8_len(source) > 16384 {
        Some("Source too large (max 16 KB)"@)
    } else {
        None
    }
}

/// The view of an optional string slice.
pub open spec fn opt_str_view(o: Option<&str>) -> Option<Seq<char>> {
    match o {
        Some(s) => Some(s@),
        None => None,
    }
}

/// Checks the fields of a snippet submission.
pub fn validate_snippet(name: &str, description: Option<&str>, source: &str) -> (r: Result<
    (),
    AppError,
>)
    ensures
        answers(r, snippet_problem(name@, opt_str_view(description), source@)),
{
    if name.is_empty() {
        return reject("Name is required");
    }
    if count_graphemes(name) > SMALL_STRING_MAX_GRAPHEME_LENGTH {
        return reject("Name too long (max 80 characters)");
    }
    if byte_len(name) > SMALL_STRING_MAX_BYTE_LENGTH {
        return reject("Name exceeded byte limit (max 640 bytes)");
    }
    if is_inappropriate(name) {
        return reject("Name contains inappropriate content");
    }
    if let Some(desc) = description {
        if count_graphemes(desc) > LARGE_STRING_MAX_GRAPHEME_LENGTH {
            return reject("Description too long (max 500 characters)");
        }
        if is_inappropriate(desc) {
            return reject("Description contains inappropriate content");
        }
        if byte_len(desc) > LARGE_STRING_MAX_BYTE_LENGTH {
            return reject("Description exceeded byte limit (max 4000 bytes)");
        }
    }
    if source.is_empty() {
        return reject("Source is required");
    }
    if byte_len(source) > MAX_SNIPPET_SOURCE_BYTES {
        return reject("Source too large (max 16 KB)");
    }
    Ok(())
}

proof fn lemma_tags_without_problem(tags: Seq<Seq<char>>, i: int)
    requires
        tags_problem(tags) is None,
        0 <= i < tags.len(),
    ensures
        tag_problem(tags[i]) is None,
    decreases i,
{
    if i > 0 {
        lemma_tags_without_problem(tags.drop_first(), i - 1);
    }
}

/// What an accepted font submission is known to be: a decent name of at most
/// 80 characters and 640 bytes; a non-empty, decent, URL-safe slug of at most
/// 80 bytes; at most ten tags, each decent and of at most 80 bytes; and a
/// decent description and changelog, when given, within their limits.
pub proof fn law_accepted_font(
    name: Seq<char>,
    slug: Seq<char>,
    description: Option<Seq<char>>,
    tags: Seq<Seq<char>>,
    changelog: Option<Seq<char>>,
)
    requires
        font_problem(name, slug, description, tags, changelog) is None,
    ensures
        !inappropriate(name),
        grapheme_count(name) <= 80,
        utf8_len(name) <= 640,
        slug.len() > 0,
        utf8_len(slug) <= 80,
        !inappropriate(slug),
        url_safe(slug),
        tags.len() <= 10,
        forall|i: int|
            0 <= i < tags.len() ==> utf8_len(#[trigger] tags[i]) <= 80 && !inappropriate(tags[i]),
        description matches Some(d) ==> !inappropriate(d) && grapheme_count(d) <= 500 && utf8_len(d)
            <= 4000,
        changelog matches Some(c) ==> !inappropriate(c) && grapheme_count(c) <= 500 && utf8_len(c)
            <= 4000,
{
    assert forall|i: int| 0 <= i < tags.len() implies utf8_len(#[trigger] tags[i]) <= 80
        && !inappropriate(tags[i]) by {
        lemma_tags_without_problem(tags, i);
    }
}

/// A decent comment of at most 200 user-perceived characters and at most 1600
/// bytes is accepted; a comment is refused for its length in bytes only when
/// it has more than 1600 bytes, and for its length in characters only when it
/// has more than 200.
pub proof fn law_comment_limits(text: Seq<char>)
    ensures
        grapheme_count(text) <= 200 && utf8_len(text) <= 1600 && !inappropriate(text) ==> comment_problem(
            text,
        ) is None,
        grapheme_count(text) > 200 ==> comment_problem(text) == Some(
            "Comment too long (max 200 characters)"@,
        ),
        grapheme_count(text) <= 200 && utf8_len(text) > 1600 ==> comment_problem(text) == Some(
            "Comment exceeded byte limit (max 1600 bytes)"@,
        ),
        grapheme_count(text) <= 200 && utf8_len(text) <= 1600 && inappropriate(text) ==> comment_problem(
            text,
        ) == Some("Comment contains inappropriate content"@),
{
}

proof fn lemma_tags_all_fine(tags: Seq<Seq<char>>)
    requires
        forall|i: int|
            0 <= i < tags.len() ==> utf8_len(#[trigger] tags[i]) <= 80 && !inappropriate(tags[i]),
    ensures
        tags_problem(tags) is None,
    decreases tags.len(),
{
    if tags.len() > 0 {
        assert(utf8_len(tags[0]) <= 80 && !inappropriate(tags[0]));
        let rest = tags.drop_first();
        assert forall|i: int| 0 <= i < rest.len() implies utf8_len(#[trigger] rest[i]) <= 80
            && !inappropriate(rest[i]) by {
            assert(rest[i] == tags[i + 1]);
        }
        lemma_tags_all_fine(rest);
    }
}

/// Every font submission within the limits is accepted: a decent name of at
/// most 80 characters and 640 bytes; a non-empty, decent, URL-safe slug of at
/// most 80 bytes; when given, a decent description and changelog of at most 500
/// characters and 4000 bytes each; and at most ten tags, each decent and of at
/// most 80 bytes. With `law_accepted_font`, these are exactly the accepted
/// submissions.
pub proof fn law_font_within_limits_accepted(
    name: Seq<char>,
    slug: Seq<char>,
    description: Option<Seq<char>>,
    tags: Seq<Seq<char>>,
    changelog: Option<Seq<char>>,
)
    requires
        !inappropriate(name),
        grapheme_count(name) <= 80,
        utf8_len(name) <= 640,
        slug.len() > 0,
        utf8_len(slug) <= 80,
        !inappropriate(slug),
        url_safe(slug),
        tags.len() <= 10,
        forall|i: int|
            0 <= i < tags.len() ==> utf8_len(#[trigger] tags[i]) <= 80 && !inappropriate(tags[i]),
        description matches Some(d) ==> !inappropriate(d) && grapheme_count(d) <= 500 && utf8_len(d)
            <= 4000,
        changelog matches Some(c) ==> !inappropriate(c) && grapheme_count(c) <= 500 && utf8_len(c)
            <= 4000,
    ensures
        font_problem(name, slug, description, tags, changelog) is None,
{
    lemma_tags_all_fine(tags);
}

/// A font description is refused as too long only when it has more than 500
/// user-perceived characters, and always then, once the name and slug pass.
pub proof fn law_font_description_length(
    name: Seq<char>,
    slug: Seq<char>,
    d: Seq<char>,
    tags: Seq<Seq<char>>,
    changelog: Option<Seq<char>>,
)
    requires
        font_name_problem(name) is None,
        slug_problem(slug) is None,
        !inappropriate(d),
    ensures
        (font_problem(name, slug, Some(d), tags, changelog) == Some(
            "Description too long (max 500 characters)"@,
        )) == (grapheme_count(d) > 500),
{
    reveal_strlit("Description too long (max 500 characters)");
    reveal_strlit("Description exceeded byte limit (max 4000 bytes)");
    reveal_strlit("Too many tags");
    reveal_strlit("Tag too long (max 80 characters)");
    reveal_strlit("Tag contains inappropriate content");
    reveal_strlit("Changelog contains inappropriate content");
    reveal_strlit("Changelog too long (max 500 characters)");
    reveal_strlit("Changelog exceeded byte limit (max 4000 bytes)");
    let msg = "Description too long (max 500 characters)"@;
    if grapheme_count(d) <= 500 {
        lemma_tags_problem_is_tag_problem(tags);
        assert(msg != "Description exceeded byte limit (max 4000 bytes)"@) by {
            assert(msg[0] == 'D' && msg[12] == 't');
            assert("Description exceeded byte limit (max 4000 bytes)"@[12] == 'e');
        }
        assert(msg[0] == 'D');
        assert("Too many tags"@[0] == 'T');
        assert("Tag too long (max 80 characters)"@[0] == 'T');
        assert("Tag contains inappropriate content"@[0] == 'T');
        assert("Changelog contains inappropriate content"@[0] == 'C');
        assert("Changelog too long (max 500 characters)"@[0] == 'C');
        assert("Changelog exceeded byte limit (max 4000 bytes)"@[0] == 'C');
    }
}

proof fn lemma_tags_problem_is_tag_problem(tags: Seq<Seq<char>>)
    ensures
        tags_problem(tags) is None || (exists|i: int|
            0 <= i < tags.len() && tags_problem(tags) == #[trigger] tag_problem(tags[i])),
    decreases tags.len(),
{
    if tags.len() > 0 {
        lemma_tags_problem_is_tag_problem(tags.drop_first());
        if tag_problem(tags[0]) is Some {
            assert(tags_problem(tags) == tag_problem(tags[0]));
        } else if tags_problem(tags.drop_first()) is Some {
            let i = choose|i: int|
                0 <= i < tags.drop_first().len() && tags_problem(tags.drop_first())
                    == #[trigger] tag_problem(tags.drop_first()[i]);
            assert(tags.drop_first()[i] == tags[i + 1]);
            assert(tags_problem(tags) == tag_problem(tags[i + 1]));
        }
    }
}

/// A snippet within the limits is accepted: a non-empty, decent name of at
/// most 80 characters and 640 bytes; when given, a decent description of at
/// most 500 characters and 4000 bytes; and a non-empty source of at most 16384
/// bytes. A description is refused as too long only when it has more than 500
/// characters, and always then, once the name passes.
pub proof fn law_snippet_limits(name: Seq<char>, description: Option<Seq<char>>, source: Seq<char>)
    ensures
        name.len() > 0 && grapheme_count(name) <= 80 && utf8_len(name) <= 640 && !inappropriate(name)
            && (description matches Some(d) ==> !inappropriate(d) && grapheme_count(d) <= 500
            && utf8_len(d) <= 4000) && source.len() > 0 && utf8_len(source) <= 16384
            ==> snippet_problem(name, description, source) is None,
        name.len() > 0 && grapheme_count(name) <= 80 && utf8_len(name) <= 640 && !inappropriate(name)
            ==> (description matches Some(d) && grapheme_count(d) > 500) == (snippet_problem(
            name,
            description,
            source,
        ) == Some("Description too long (max 500 characters)"@)),
{
    reveal_strlit("Description too long (max 500 characters)");
    reveal_strlit("Description contains inappropriate content");
    reveal_strlit("Description exceeded byte limit (max 4000 bytes)");
    reveal_strlit("Source is required");
    reveal_strlit("Source too large (max 16 KB)");
    let msg = "Description too long (max 500 characters)"@;
    assert(msg[12] == 't');
    assert("Description contains inappropriate content"@[12] == 'c');
    assert("Description exceeded byte limit (max 4000 bytes)"@[12] == 'e');
    assert("Source is required"@[0] == 'S');
    assert("Source too large (max 16 KB)"@[0] == 'S');
    assert(msg[0] == 'D');
}

} // verus!
