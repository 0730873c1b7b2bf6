//! Derivation of a canonical remote name from a GitHub URI.

use vstd::prelude::*;

use crate::error::Error;
use crate::text::contains_seq;
use crate::text::contains_str;
use crate::text::lower_of;
use crate::text::replace_char;
use crate::text::replace_char_spec;
use crate::text::split_spec;
use crate::text::split_str;
use crate::text::to_lower;

verus! {

/// The host marker every accepted URI must contain.
pub open spec fn github_marker() -> Seq<char> {
    "github.com"@
}

/// The fixed tag appended to every derived remote name.
pub open spec fn name_suffix() -> Seq<char> {
    "-xtask"@
}

/// The URI with `:` mapped to `/`, so SSH-style and URL-style URIs
/// tokenize alike.
pub open spec fn normalized(uri: Seq<char>) -> Seq<char> {
    replace_char_spec(uri, ':', '/')
}

/// The `/`-delimited segments of the normalized URI.
pub open spec fn segments(uri: Seq<char>) -> Seq<Seq<char>> {
    split_spec(normalized(uri), '/')
}

/// Whether the URI names the expected host.
pub open spec fn has_marker(uri: Seq<char>) -> bool {
    contains_seq(uri, github_marker())
}

/// Whether the URI has enough path segments to name an owner.
pub open spec fn has_owner(uri: Seq<char>) -> bool {
    segments(uri).len() >= 2
}

/// Whether `parse_github_uri` accepts the URI.
pub open spec fn accepts(uri: Seq<char>) -> bool {
    has_marker(uri) && has_owner(uri)
}

/// The owner segment: the second-to-last `/`-delimited segment.
pub open spec fn owner_segment(uri: Seq<char>) -> Seq<char>
    recommends
        has_owner(uri),
{
    segments(uri)[segments(uri).len() - 2]
}

/// The canonical remote name: the lower-cased owner segment followed by
/// the fixed tag.
pub open spec fn derived_name(uri: Seq<char>) -> Seq<char>
    recommends
        has_owner(uri),
{
    lower_of(owner_segment(uri)) + name_suffix()
}

/// Derives the canonical remote name from a GitHub URI.
///
/// Fails with `InvalidSource` when the URI does not mention the expected
/// host, and with `MalformedUri` when, after mapping `:` to `/`, it has
/// fewer than two `/`-delimited segments.  Otherwise the result is the
/// lower-cased second-to-last segment with the fixed tag appended.
pub fn parse_github_uri(uri: &str) -> (r: Result<String, Error>)
    ensures
        r is Ok <==> accepts(uri@),
        !has_marker(uri@) ==> r == Err::<String, Error>(Error::InvalidSource),
        has_marker(uri@) && !has_owner(uri@) ==> r == Err::<String, Error>(Error::MalformedUri),
        r matches Ok(name) ==> name@ == derived_name(uri@),
{
    if !contains_str(uri, "github.com") {
        return Err(Error::InvalidSource);
    }
    let norm = replace_char(uri, ':', '/');
    let segs = split_str(norm.as_str(), '/');
    if segs.len() < 2 {
        proof {
            assert(segs@.map_values(|p: String| p@).len() == segs@.len());
        }
        return Err(Error::MalformedUri);
    }
    let owner = &segs[segs.len() - 2];
    let low = to_lower(owner.as_str());
    let name = low.concat("-xtask");
    proof {
        let views = segs@.map_values(|p: String| p@);
        assert(views.len() == segs@.len());
        assert(views[segs@.len() - 2] == owner@);
    }
    Ok(name)
}

/// The derived name of an accepted URI is a pure function of the URI
/// text: the lower-cased owner segment followed by the fixed tag, so it
/// always ends with the fixed tag.
pub proof fn lemma_derived_name_shape(uri: Seq<char>)
    requires
        has_owner(uri),
    ensures
        derived_name(uri) == lower_of(owner_segment(uri)) + name_suffix(),
        derived_name(uri).len() >= name_suffix().len(),
        derived_name(uri).subrange(
            derived_name(uri).len() - name_suffix().len(),
            derived_name(uri).len() as int,
        ) == name_suffix(),
{
    let name = derived_name(uri);
    assert(name.subrange(name.len() - name_suffix().len(), name.len() as int) =~= name_suffix());
}

} // verus!
