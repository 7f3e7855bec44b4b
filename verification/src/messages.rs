//! Shaping fetched messages for display: stripping the quotes that raw
//! JSON text carries, undoing the escapes message bodies arrive with,
//! deciding whether the subject liked a message, and picking the image
//! attachments out of a message's attachment list.

use vstd::prelude::*;
use vstd::string::StrSliceExecFns;
use vstd::string::StringExecFns;

verus! {

/// Strips the first and last character: the plain text of a JSON-quoted
/// string rendered verbatim.
pub fn clean_str(input: String) -> (r: String)
    requires
        input@.len() >= 2,
    ensures
        r@ == input@.subrange(1, input@.len() - 1),
{
    let len = input.as_str().unicode_len();
    let mid = input.as_str().substring_char(1, len - 1);
    mid.to_owned()
}

/// The body text with its transport escapes undone: each `\n` pair
/// becomes a line break and each `\"` pair a quote, scanning left to
/// right.
pub open spec fn spec_unescape(s: Seq<char>) -> Seq<char>
    decreases s.len(),
{
    if s.len() == 0 {
        Seq::empty()
    } else if s.len() >= 2 && s[0] == '\\' && s[1] == 'n' {
        seq!['\n'] + spec_unescape(s.skip(2))
    } else if s.len() >= 2 && s[0] == '\\' && s[1] == '"' {
        seq!['"'] + spec_unescape(s.skip(2))
    } else {
        seq![s[0]] + spec_unescape(s.skip(1))
    }
}

fn str_to_chars(s: &str) -> (v: Vec<char>)
    ensures
        v@ == s@,
{
    let n = s.unicode_len();
    let mut v: Vec<char> = Vec::new();
    let mut i: usize = 0;
    while i < n
        invariant
            i <= n,
            n == s@.len(),
            v@ == s@.subrange(0, i as int),
        decreases n - i,
    {
        v.push(s.get_char(i));
        i = i + 1;
        proof {
            assert(v@ =~= s@.subrange(0, i as int));
        }
    }
    proof {
        assert(v@ =~= s@);
    }
    v
}

/// Relies on `String`'s `FromIterator`: collecting characters in order.
#[verifier::external_body]
fn chars_to_string(v: &Vec<char>) -> (r: String)
    ensures
        r@ == v@,
{
    v.iter().collect()
}

/// Undoes the transport escapes of a message body: exactly
/// [`spec_unescape`].
pub fn unescape_message_text(s: &str) -> (r: String)
    ensures
        r@ == spec_unescape(s@),
{
    let chars = str_to_chars(s);
    let n = chars.len();
    let mut out: Vec<char> = Vec::new();
    let mut i: usize = 0;
    proof {
        assert(s@.skip(0) =~= s@);
        assert(Seq::<char>::empty() + spec_unescape(s@) =~= spec_unescape(s@));
    }
    while i < n
        invariant
            i <= n,
            n == chars@.len(),
            chars@ == s@,
            spec_unescape(s@) == out@ + spec_unescape(s@.skip(i as int)),
        decreases n - i,
    {
        proof {
            assert(s@.skip(i as int)[0] == s@[i as int]);
            assert(s@.skip(i as int).skip(1) =~= s@.skip(i as int + 1));
            if i + 1 < n {
                assert(s@.skip(i as int)[1] == s@[i as int + 1]);
                assert(s@.skip(i as int).skip(2) =~= s@.skip(i as int + 2));
            }
        }
        if i + 1 < n && chars[i] == '\\' && chars[i + 1] == 'n' {
            out.push('\n');
            i = i + 2;
        } else if i + 1 < n && chars[i] == '\\' && chars[i + 1] == '"' {
            out.push('"');
            i = i + 2;
        } else {
            out.push(chars[i]);
            i = i + 1;
        }
    }
    proof {
        assert(s@.skip(n as int) =~= Seq::<char>::empty());
        assert(spec_unescape(s@) =~= out@);
    }
    chars_to_string(&out)
}

/// Whether the subject's identifier is among those who liked a message.
pub fn contains_user(favorited_by: &Vec<String>, user_id: &String) -> (r: bool)
    ensures
        r == favorited_by.deep_view().contains(user_id@),
{
    let n = favorited_by.len();
    let mut i: usize = 0;
    while i < n
        invariant
            i <= n,
            n == favorited_by@.len(),
            forall|k: int| 0 <= k < i ==> favorited_by.deep_view()[k] != user_id@,
        decreases n - i,
    {
        if favorited_by[i].eq(user_id) {
            proof {
                assert(favorited_by.deep_view()[i as int] == user_id@);
            }
            return true;
        }
        i = i + 1;
    }
    proof {
        assert(forall|k: int| 0 <= k < favorited_by.deep_view().len()
            ==> favorited_by.deep_view()[k] != user_id@);
    }
    false
}

/// One attachment of a fetched message: its kind and its address.
pub struct Attachment {
    pub kind: String,
    pub url: String,
}

/// Mathematical image of an [`Attachment`].
#[verifier::ext_equal]
pub ghost struct AttachmentV {
    pub kind: Seq<char>,
    pub url: Seq<char>,
}

impl View for Attachment {
    type V = AttachmentV;

    open spec fn view(&self) -> AttachmentV {
        AttachmentV { kind: self.kind@, url: self.url@ }
    }
}

/// The addresses of the image attachments, in order.
pub open spec fn spec_image_urls(s: Seq<AttachmentV>) -> Seq<Seq<char>>
    decreases s.len(),
{
    if s.len() == 0 {
        Seq::empty()
    } else if s[0].kind == "image"@ {
        seq![s[0].url] + spec_image_urls(s.skip(1))
    } else {
        spec_image_urls(s.skip(1))
    }
}

/// Picks the addresses of the image attachments out of a message's
/// attachment list, in order: exactly [`spec_image_urls`].
pub fn image_urls(attachments: &Vec<Attachment>) -> (r: Vec<String>)
    ensures
        r.deep_view() == spec_image_urls(attachments@.map_values(|a: Attachment| a@)),
{
    let ghost all = attachments@.map_values(|a: Attachment| a@);
    let image_kind = String::from_str("image");
    let n = attachments.len();
    let mut r: Vec<String> = Vec::new();
    let mut i: usize = 0;
    proof {
        assert(all.skip(0) =~= all);
        assert(r.deep_view() =~= Seq::<Seq<char>>::empty());
        assert(Seq::<Seq<char>>::empty() + spec_image_urls(all) =~= spec_image_urls(all));
    }
    while i < n
        invariant
            i <= n,
            n == attachments@.len(),
            all == attachments@.map_values(|a: Attachment| a@),
            image_kind@ == "image"@,
            spec_image_urls(all) == r.deep_view() + spec_image_urls(all.skip(i as int)),
        decreases n - i,
    {
        proof {
            assert(all.skip(i as int)[0] == all[i as int]);
            assert(all.skip(i as int).skip(1) =~= all.skip(i as int + 1));
        }
        let ghost r_prev = r.deep_view();
        if attachments[i].kind.eq(&image_kind) {
            r.push(attachments[i].url.clone());
            proof {
                assert(r.deep_view() =~= r_prev.push(all[i as int].url));
                assert(r_prev + (seq![all[i as int].url] + spec_image_urls(
                    all.skip(i as int + 1),
                )) =~= r.deep_view() + spec_image_urls(all.skip(i as int + 1)));
            }
        }
        i = i + 1;
    }
    proof {
        assert(all.skip(n as int) =~= Seq::<AttachmentV>::empty());
        assert(spec_image_urls(all) =~= r.deep_view());
    }
    r
}

} // verus!
