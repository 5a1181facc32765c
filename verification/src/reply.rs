//! HTTP replies as plain values.

use vstd::prelude::*;

verus! {

/// What a reply carries: text or raw bytes.
#[derive(Debug)]
pub enum ReplyBody {
    Text(String),
    Bytes(Vec<u8>),
}

/// An HTTP reply: status code, the headers that are set on purpose, and a body.
#[derive(Debug)]
pub struct Reply {
    pub status: u16,
    pub headers: Vec<(String, String)>,
    pub body: ReplyBody,
}

/// The content of a [`ReplyBody`].
pub enum BodyView {
    Text(Seq<char>),
    Bytes(Seq<u8>),
}

/// The content of a [`Reply`].
#[verifier::ext_equal]
pub struct ReplyView {
    pub status: u16,
    pub headers: Seq<(Seq<char>, Seq<char>)>,
    pub body: BodyView,
}

impl View for ReplyBody {
    type V = BodyView;

    open spec fn view(&self) -> BodyView {
        match self {
            ReplyBody::Text(text) => BodyView::Text(text@),
            ReplyBody::Bytes(bytes) => BodyView::Bytes(bytes@),
        }
    }
}

/// Header fields as texts.
pub open spec fn header_texts(headers: Seq<(String, String)>) -> Seq<(Seq<char>, Seq<char>)> {
    headers.map_values(|h: (String, String)| (h.0@, h.1@))
}

impl View for Reply {
    type V = ReplyView;

    open spec fn view(&self) -> ReplyView {
        ReplyView {
            status: self.status,
            headers: header_texts(self.headers@),
            body: self.body@,
        }
    }
}

/// A reply that is only a status and a text.
pub open spec fn plain_reply(status: u16, text: Seq<char>) -> ReplyView {
    ReplyView { status, headers: Seq::empty(), body: BodyView::Text(text) }
}

impl Reply {
    /// A reply that is only a status and a text.
    pub fn plain(status: u16, text: &str) -> (reply: Reply)
        ensures
            reply@ == plain_reply(status, text@),
    {
        let reply = Reply { status, headers: Vec::new(), body: ReplyBody::Text(text.to_owned()) };
        assert(header_texts(reply.headers@) =~= Seq::empty());
        reply
    }

    /// The reply with one more header field behind the others.
    pub fn with_header(self, name: &str, value: &str) -> (reply: Reply)
        ensures
            reply@ == (ReplyView { headers: self@.headers.push((name@, value@)), ..self@ }),
    {
        let ghost before = self.headers@;
        let mut headers = self.headers;
        headers.push((name.to_owned(), value.to_owned()));
        assert(header_texts(headers@) =~= header_texts(before).push((name@, value@)));
        Reply { status: self.status, headers, body: self.body }
    }
}

/// The content of a reply is what its fields hold.
pub proof fn reply_content_is_in_its_fields(reply: Reply)
    ensures
        reply@.status == reply.status,
        reply@.headers.len() == reply.headers@.len(),
        forall|i: int|
            0 <= i < reply.headers@.len() ==> (#[trigger] reply@.headers[i]).0
                == reply.headers@[i].0@ && reply@.headers[i].1 == reply.headers@[i].1@,
        match reply.body {
            ReplyBody::Text(text) => reply@.body == BodyView::Text(text@),
            ReplyBody::Bytes(bytes) => reply@.body == BodyView::Bytes(bytes@),
        },
{
}

/// A reply whose content is a status and a text has these in its fields, and no
/// header fields.
pub proof fn plain_replies_are_text(reply: Reply, status: u16, text: Seq<char>)
    ensures
        reply@ == plain_reply(status, text) ==> {
            &&& reply.status == status
            &&& reply.headers@.len() == 0
            &&& reply.body is Text && reply.body->Text_0@ == text
        },
{
    reply_content_is_in_its_fields(reply);
}

} // verus!
