//! The six operations the client can perform, the request each one stands
//! for, and the decoding of the service's reply.

use vstd::prelude::*;
use crate::digits::{append_i64_dec, lemma_i64_dec_chars, spec_i64_dec};
use crate::reply::{
    decode_reply, json_message_id, json_ok, spec_decode, spec_id_or_zero, spec_reply_view,
};
use crate::scan::{
    contains_seq, lemma_absent_char_keeps_free, lemma_concat_keeps_free_first,
    lemma_concat_keeps_free_last,
};

verus! {

/// One message or photo operation, carrying exactly the fields it needs.
#[derive(Debug)]
#[allow(non_camel_case_types)]
pub enum sending {
    /// Post a new text message: the text, then the chat identifier.
    EnviarMensagem(String, i64),
    /// Delete a message: the chat identifier, then the message identifier.
    APagaMensagem(String, i64),
    /// Post a text message as a reply: the chat identifier, the text, then
    /// the identifier of the message replied to.
    RePlyTOMensagem(String, String, i64),
    /// Replace a message's text: the chat identifier, the message identifier,
    /// then the new text.
    EditarMensagem(String, i64, String),
    /// Upload a photo: the chat identifier, the photo bytes, then the file
    /// name the upload is tagged with.
    EnviarFoto(String, Vec<u8>, String),
    /// Upload a photo with a caption: the chat identifier, the photo bytes,
    /// the file name, then the caption.
    EnviarFotoCaption(String, Vec<u8>, String, String),
}

/// The binary part of a photo request: one part named `photo`, tagged with a
/// file name. It travels in the multipart body, never in the URL.
pub struct Upload {
    pub photo: Vec<u8>,
    pub filename: String,
}

/// One fully formatted request: the endpoint URL, and for photo operations
/// the multipart payload.
pub struct Request {
    pub url: String,
    pub upload: Option<Upload>,
}

/// The base endpoint for a bot token.
pub open spec fn spec_base(api: Seq<char>) -> Seq<char> {
    "https://api.telegram.org/bot"@ + api
}

/// The URL each operation formats: its fields substituted verbatim into the
/// query string, with `parse_mode=Markdown` exactly where the operation
/// carries body text or a caption.
pub open spec fn spec_url(a: sending, api: Seq<char>) -> Seq<char> {
    match a {
        sending::EnviarMensagem(text, chat) => spec_base(api) + "/sendMessage?chat_id="@
            + spec_i64_dec(chat as int) + "&parse_mode=Markdown&text="@ + text@,
        sending::APagaMensagem(chat, mid) => spec_base(api) + "/deleteMessage?chat_id="@ + chat@
            + "&message_id="@ + spec_i64_dec(mid as int),
        sending::RePlyTOMensagem(chat, text, rid) => spec_base(api) + "/sendMessage?chat_id="@
            + chat@ + "&parse_mode=Markdown&text="@ + text@ + "&reply_to_message_id="@
            + spec_i64_dec(rid as int),
        sending::EditarMensagem(chat, mid, text) => spec_base(api) + "/editMessageText?chat_id="@
            + chat@ + "&message_id="@ + spec_i64_dec(mid as int) + "&parse_mode=Markdown&text="@
            + text@,
        sending::EnviarFoto(chat, _, _) => spec_base(api) + "/sendPhoto?chat_id="@ + chat@,
        sending::EnviarFotoCaption(chat, _, _, caption) => spec_base(api) + "/sendPhoto?chat_id="@
            + chat@ + "&parse_mode=Markdown&caption="@ + caption@,
    }
}

/// The payload each operation sends outside the URL: the photo bytes and file
/// name for the two photo operations, nothing for the rest.
pub open spec fn spec_upload_of(a: sending) -> Option<(Seq<u8>, Seq<char>)> {
    match a {
        sending::EnviarFoto(_, photo, name) => Some((photo@, name@)),
        sending::EnviarFotoCaption(_, photo, name, _) => Some((photo@, name@)),
        _ => None,
    }
}

/// What `send` returns: a function of this call's reply alone. The action
/// shapes the request, never the decoding of the reply.
pub open spec fn spec_send(a: sending, reply: Option<Seq<char>>) -> Option<i64> {
    spec_decode(reply)
}

fn copy_bytes(src: &Vec<u8>) -> (r: Vec<u8>)
    ensures
        r@ == src@,
{
    let mut r: Vec<u8> = Vec::new();
    let mut i: usize = 0;
    while i < src.len()
        invariant
            i <= src.len(),
            r@ == src@.subrange(0, i as int),
        decreases src.len() - i,
    {
        r.push(src[i]);
        i = i + 1;
        assert(r@ =~= src@.subrange(0, i as int));
    }
    assert(r@ =~= src@);
    r
}

impl sending {
    /// Formats the request this operation stands for against the given bot
    /// token: the endpoint URL, and for photo operations the multipart
    /// payload beside it.
    pub fn request(&self, api: &str) -> (req: Request)
        ensures
            req.url@ == spec_url(*self, api@),
            req.upload is Some <==> spec_upload_of(*self) is Some,
            req.upload matches Some(u) ==> spec_upload_of(*self) == Some((u.photo@, u.filename@)),
    {
        let mut url = String::from_str("https://api.telegram.org/bot");
        url.append(api);
        match self {
            sending::EnviarMensagem(text, chat) => {
                url.append("/sendMessage?chat_id=");
                append_i64_dec(&mut url, *chat);
                url.append("&parse_mode=Markdown&text=");
                url.append(text.as_str());
                Request { url, upload: None }
            },
            sending::APagaMensagem(chat, mid) => {
                url.append("/deleteMessage?chat_id=");
                url.append(chat.as_str());
                url.append("&message_id=");
                append_i64_dec(&mut url, *mid);
                Request { url, upload: None }
            },
            sending::RePlyTOMensagem(chat, text, rid) => {
                url.append("/sendMessage?chat_id=");
                url.append(chat.as_str());
                url.append("&parse_mode=Markdown&text=");
                url.append(text.as_str());
                url.append("&reply_to_message_id=");
                append_i64_dec(&mut url, *rid);
                Request { url, upload: None }
            },
            sending::EditarMensagem(chat, mid, text) => {
                url.append("/editMessageText?chat_id=");
                url.append(chat.as_str());
                url.append("&message_id=");
                append_i64_dec(&mut url, *mid);
                url.append("&parse_mode=Markdown&text=");
                url.append(text.as_str());
                Request { url, upload: None }
            },
            sending::EnviarFoto(chat, photo, name) => {
                url.append("/sendPhoto?chat_id=");
                url.append(chat.as_str());
                Request {
                    url,
                    upload: Some(Upload { photo: copy_bytes(photo), filename: name.clone() }),
                }
            },
            sending::EnviarFotoCaption(chat, photo, name, caption) => {
                url.append("/sendPhoto?chat_id=");
                url.append(chat.as_str());
                url.append("&parse_mode=Markdown&caption=");
                url.append(caption.as_str());
                Request {
                    url,
                    upload: Some(Upload { photo: copy_bytes(photo), filename: name.clone() }),
                }
            },
        }
    }

    /// Decodes what the transport answered for this operation's request:
    /// `None` stands for a failed HTTP exchange, `Some(body)` for the reply's
    /// text. Returns the message identifier the reply carries, zero where a
    /// parsed reply lacks one, and nothing where there is no reply or the
    /// body is not JSON.
    pub fn send(&self, reply: Option<&str>) -> (r: Option<i64>)
        ensures
            r == spec_send(*self, spec_reply_view(reply)),
            reply is None ==> r is None,
            reply matches Some(b) ==> r == (if json_ok(b@) {
                Some(spec_id_or_zero(json_message_id(b@)))
            } else {
                None
            }),
    {
        decode_reply(reply)
    }
}

/// No state crosses `send` calls: what one call returns is a function of its
/// own reply alone, never of another call's action or outcome.
pub proof fn lemma_send_shares_no_state(a1: sending, a2: sending, reply: Option<Seq<char>>)
    ensures
        spec_send(a1, reply) == spec_send(a2, reply),
{
}

/// Photo bytes and file name never reach a URL: the URL a photo operation
/// formats is the same whatever payload it carries.
pub proof fn lemma_photo_url_free_of_payload(
    chat: String,
    caption: String,
    photo_a: Vec<u8>,
    name_a: String,
    photo_b: Vec<u8>,
    name_b: String,
    api: Seq<char>,
)
    ensures
        spec_url(sending::EnviarFoto(chat, photo_a, name_a), api) == spec_url(
            sending::EnviarFoto(chat, photo_b, name_b),
            api,
        ),
        spec_url(sending::EnviarFotoCaption(chat, photo_a, name_a, caption), api) == spec_url(
            sending::EnviarFotoCaption(chat, photo_b, name_b, caption),
            api,
        ),
{
}

/// A delete request names only the chat and message identifiers: its URL
/// never carries the text `parse_mode`, provided neither the token nor the
/// chat identifier smuggles that text in (fields go into the query string
/// verbatim, so a chat identifier such as `1&parse_mode=x` would).
pub proof fn lemma_delete_url_free_of_parse_mode(chat: String, mid: i64, api: Seq<char>)
    requires
        !contains_seq(api, "parse_mode"@),
        !contains_seq(chat@, "parse_mode"@),
    ensures
        !contains_seq(spec_url(sending::APagaMensagem(chat, mid), api), "parse_mode"@),
{
    let p = "parse_mode"@;
    let l0 = "https://api.telegram.org/bot"@;
    let l1 = "/deleteMessage?chat_id="@;
    let l2 = "&message_id="@;
    let d = spec_i64_dec(mid as int);
    reveal_strlit("parse_mode");
    reveal_strlit("https://api.telegram.org/bot");
    reveal_strlit("/deleteMessage?chat_id=");
    reveal_strlit("&message_id=");
    // The needle has an underscore, which the scheme-and-host prefix lacks,
    // and begins with a `p`, which the two parameter separators lack.
    assert(forall|i: int| 0 <= i < l0.len() ==> l0[i] != p[5]);
    lemma_absent_char_keeps_free(l0, p, 5);
    assert(forall|i: int| 0 <= i < l1.len() ==> l1[i] != p[0]);
    lemma_absent_char_keeps_free(l1, p, 0);
    assert(forall|i: int| 0 <= i < l2.len() ==> l2[i] != p[0]);
    lemma_absent_char_keeps_free(l2, p, 0);
    lemma_i64_dec_chars(mid as int);
    assert(forall|i: int| 0 <= i < d.len() ==> d[i] != p[0]);
    lemma_absent_char_keeps_free(d, p, 0);
    // No occurrence can straddle a boundary either: each join puts a
    // character beside it that the needle never contains.
    assert(forall|k: int| 0 <= k < p.len() ==> p[k] != l0.last());
    lemma_concat_keeps_free_last(l0, api, p);
    assert(forall|k: int| 0 <= k < p.len() ==> p[k] != l1[0]);
    lemma_concat_keeps_free_first(l0 + api, l1, p);
    assert((l0 + api + l1).last() == l1.last());
    assert(forall|k: int| 0 <= k < p.len() ==> p[k] != l1.last());
    lemma_concat_keeps_free_last(l0 + api + l1, chat@, p);
    assert(forall|k: int| 0 <= k < p.len() ==> p[k] != l2[0]);
    lemma_concat_keeps_free_first(l0 + api + l1 + chat@, l2, p);
    assert((l0 + api + l1 + chat@ + l2).last() == l2.last());
    assert(forall|k: int| 0 <= k < p.len() ==> p[k] != l2.last());
    lemma_concat_keeps_free_last(l0 + api + l1 + chat@ + l2, d, p);
    assert(spec_url(sending::APagaMensagem(chat, mid), api) == l0 + api + l1 + chat@ + l2 + d);
}

} // verus!

