//! Small helpers around outside services: the clock, fresh identifiers
//! and timestamp formatting.

use vstd::prelude::*;
use crate::strutil::{chars_to_string, str_to_chars};

verus! {

/// The Unicode lowercase mapping of a character sequence.  The result
/// depends on the characters alone.
pub uninterp spec fn lower_of(s: Seq<char>) -> Seq<char>;

/// Whether a character is alphanumeric under Unicode.  The verdict
/// depends on the character alone.
pub uninterp spec fn char_is_alnum(c: char) -> bool;

/// Relies on `str::to_lowercase`: the result depends on the characters
/// alone, and an empty string stays empty.
#[verifier::external_body]
fn lowercase(s: &str) -> (r: String)
    ensures
        r@ == lower_of(s@),
        s@.len() == 0 ==> r@.len() == 0,
{
    s.to_lowercase()
}

/// Relies on `char::is_alphanumeric`: the verdict depends on the
/// character alone.
#[verifier::external_body]
fn is_alnum(c: char) -> (r: bool)
    ensures
        r == char_is_alnum(c),
{
    c.is_alphanumeric()
}

/// Every character kept if alphanumeric, replaced by a dash otherwise.
pub open spec fn dash_mapped(s: Seq<char>) -> Seq<char> {
    Seq::new(s.len(), |i: int| if char_is_alnum(s[i]) {
        s[i]
    } else {
        '-'
    })
}

/// Runs of dashes collapsed to a single dash.
pub open spec fn collapse_dashes(s: Seq<char>) -> Seq<char>
    decreases s,
{
    if s.len() == 0 {
        Seq::empty()
    } else if s.len() >= 2 && s[0] == '-' && s[1] == '-' {
        collapse_dashes(s.drop_first())
    } else {
        seq![s[0]] + collapse_dashes(s.drop_first())
    }
}

/// One leading dash removed, if present.
pub open spec fn trim_lead(s: Seq<char>) -> Seq<char> {
    if s.len() > 0 && s[0] == '-' {
        s.drop_first()
    } else {
        s
    }
}

/// One trailing dash removed, if present.
pub open spec fn trim_trail(s: Seq<char>) -> Seq<char> {
    if s.len() > 0 && s.last() == '-' {
        s.drop_last()
    } else {
        s
    }
}

/// The slug of a text: lowercased, every non-alphanumeric character a
/// dash, dash runs collapsed, and one dash trimmed from either end.
pub open spec fn spec_slug(s: Seq<char>) -> Seq<char> {
    trim_trail(trim_lead(collapse_dashes(dash_mapped(lower_of(s)))))
}

/// Appends the collapsed suffix of `v` from index `i` to `out`.
fn collapse_from(v: &Vec<char>, i: usize, out: &mut Vec<char>)
    requires
        i <= v@.len(),
    ensures
        final(out)@ == old(out)@ + collapse_dashes(v@.skip(i as int)),
    decreases v@.len() - i,
{
    if i >= v.len() {
        proof {
            assert(v@.skip(i as int).len() == 0);
            assert(out@ =~= old(out)@ + collapse_dashes(v@.skip(i as int)));
        }
    } else {
        proof {
            assert(v@.skip(i as int)[0] == v@[i as int]);
            assert(v@.skip(i as int).drop_first() =~= v@.skip(i as int + 1));
        }
        if i + 1 < v.len() && v[i] == '-' && v[i + 1] == '-' {
            proof {
                assert(v@.skip(i as int)[1] == v@[i as int + 1]);
            }
            collapse_from(v, i + 1, out);
        } else {
            out.push(v[i]);
            collapse_from(v, i + 1, out);
            proof {
                assert(out@ =~= old(out)@ + collapse_dashes(v@.skip(i as int)));
            }
        }
    }
}

/// Turns a text into a URL-friendly slug: lowercased, with every run
/// of non-alphanumeric characters reduced to a single dash and the
/// ends trimmed.
pub fn slugify(text: &str) -> (r: String)
    ensures
        r@ == spec_slug(text@),
{
    let lowered = lowercase(text);
    let chars = str_to_chars(lowered.as_str());
    let n = chars.len();
    let mut mapped: Vec<char> = Vec::new();
    let mut k: usize = 0;
    proof {
        assert(mapped@ =~= dash_mapped(chars@).take(0));
    }
    while k < n
        invariant
            n == chars@.len(),
            k <= n,
            mapped@ == dash_mapped(chars@).take(k as int),
        decreases n - k,
    {
        if is_alnum(chars[k]) {
            mapped.push(chars[k]);
        } else {
            mapped.push('-');
        }
        proof {
            assert(mapped@ =~= dash_mapped(chars@).take(k as int + 1));
        }
        k = k + 1;
    }
    proof {
        assert(dash_mapped(chars@).take(n as int) =~= dash_mapped(chars@));
    }
    let mut collapsed: Vec<char> = Vec::new();
    collapse_from(&mapped, 0, &mut collapsed);
    proof {
        assert(mapped@.skip(0) =~= mapped@);
    }
    let ghost before_trim = collapsed@;
    if collapsed.len() > 0 && collapsed[0] == '-' {
        collapsed.remove(0);
        proof {
            assert(collapsed@ =~= before_trim.drop_first());
        }
    }
    proof {
        assert(collapsed@ == trim_lead(before_trim));
    }
    let ghost after_lead = collapsed@;
    if collapsed.len() > 0 && collapsed[collapsed.len() - 1] == '-' {
        collapsed.pop();
        proof {
            assert(collapsed@ =~= after_lead.drop_last());
        }
    }
    proof {
        assert(collapsed@ == trim_trail(after_lead));
    }
    let out = chars_to_string(&collapsed);
    proof {
        assert(out@ == spec_slug(text@));
    }
    out
}

/// The RFC 3339 rendering of a unix timestamp (empty for a timestamp
/// chrono cannot represent).  The result depends on the timestamp
/// alone.
pub uninterp spec fn rfc3339_of(ts: i64) -> Seq<char>;

/// Relies on `chrono::DateTime::from_timestamp` and
/// `chrono::DateTime::to_rfc3339`: the rendering is a function of the
/// timestamp alone; a timestamp outside chrono's representable range
/// renders as the empty string.
#[verifier::external_body]
pub fn format_datetime(ts: i64) -> (r: String)
    ensures
        r@ == rfc3339_of(ts),
{
    match chrono::DateTime::from_timestamp(ts, 0) {
        Some(dt) => dt.to_rfc3339(),
        None => String::new(),
    }
}

/// The media kind an upload declares, as far as images are concerned.
#[derive(Clone, Copy, Debug, PartialEq, Eq, Structural)]
pub enum MimeKind {
    Png,
    Jpeg,
    Gif,
    Other,
}

/// The image formats uploads may decode to.
#[derive(Clone, Copy, Debug, PartialEq, Eq, Structural)]
pub enum ImageFormat {
    Png,
    Jpeg,
    Gif,
}

/// The image format selected by an upload's declared media kind, when
/// one of the supported kinds was declared at all.
pub fn get_image_type(kind: Option<MimeKind>) -> (r: Option<ImageFormat>)
    ensures
        r == match kind {
            Some(MimeKind::Png) => Some(ImageFormat::Png),
            Some(MimeKind::Jpeg) => Some(ImageFormat::Jpeg),
            Some(MimeKind::Gif) => Some(ImageFormat::Gif),
            Some(MimeKind::Other) => None::<ImageFormat>,
            None => None::<ImageFormat>,
        },
{
    match kind {
        Some(MimeKind::Png) => Some(ImageFormat::Png),
        Some(MimeKind::Jpeg) => Some(ImageFormat::Jpeg),
        Some(MimeKind::Gif) => Some(ImageFormat::Gif),
        Some(MimeKind::Other) => None,
        None => None,
    }
}

/// Relies on `chrono::Utc::now`: the current unix timestamp in seconds.
/// Nothing is assumed of the value.
#[verifier::external_body]
pub fn now_unix() -> (r: i64) {
    chrono::Utc::now().timestamp()
}

/// Relies on `uuid::Uuid::new_v4` and its `Display` impl: a fresh
/// random identifier in the hyphenated form, which is always 36
/// characters.  Nothing is assumed beyond the length.
#[verifier::external_body]
pub fn new_uuid_string() -> (r: String)
    ensures
        r@.len() == 36,
{
    uuid::Uuid::new_v4().to_string()
}

} // verus!
