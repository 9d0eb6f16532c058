//! The response envelope: every evaluation request is answered by exactly one
//! JSON object, either `{"ok":<string>}` or `{"err":[<string>,...]}`.

use vstd::prelude::*;

verus! {

/// The JSON string literal (quotes and escapes included) that serde_json
/// writes for a piece of text.
pub uninterp spec fn json_quoted(s: Seq<char>) -> Seq<char>;

/// Relies on `serde_json::to_string` applied to a `str`: the text as a JSON
/// string literal. For a `str` the serializer only writes into a `Vec<u8>`,
/// which cannot fail, so the `Ok` value is taken.
#[verifier::external_body]
fn quote(s: &str) -> (r: String)
    ensures
        r@ == json_quoted(s@),
{
    serde_json::to_string(s).expect("a str always serializes")
}

/// The answer to one inbound message.
pub enum Response {
    /// Display string of the value the runtime produced.
    Evaluated(String),
    /// The syntax errors the frontend reported, in order.
    Rejected(Vec<String>),
}

/// The character sequences of a list of strings.
pub open spec fn texts(v: Seq<String>) -> Seq<Seq<char>> {
    v.map_values(|s: String| s@)
}

/// `{"ok":` + quoted display string + `}`.
pub open spec fn ok_frame(display: Seq<char>) -> Seq<char> {
    "{\"ok\":"@ + json_quoted(display) + "}"@
}

/// The quoted messages, separated by commas.
pub open spec fn quoted_list(msgs: Seq<Seq<char>>) -> Seq<char>
    decreases msgs.len(),
{
    if msgs.len() == 0 {
        Seq::empty()
    } else if msgs.len() == 1 {
        json_quoted(msgs[0])
    } else {
        quoted_list(msgs.drop_last()) + ","@ + json_quoted(msgs.last())
    }
}

/// `{"err":[` + quoted messages + `]}`.
pub open spec fn err_frame(msgs: Seq<Seq<char>>) -> Seq<char> {
    "{\"err\":["@ + quoted_list(msgs) + "]}"@
}

impl Response {
    /// The frame text that answers with this response.
    pub open spec fn frame(&self) -> Seq<char> {
        match self {
            Response::Evaluated(d) => ok_frame(d@),
            Response::Rejected(errs) => err_frame(texts(errs@)),
        }
    }

    /// Serializes the response into the text of one outbound frame.
    pub fn encode(&self) -> (r: String)
        ensures
            r@ == self.frame(),
    {
        match self {
            Response::Evaluated(d) => encode_ok(d.as_str()),
            Response::Rejected(errs) => encode_err(errs),
        }
    }
}

/// The frame for a successful evaluation with the given display string.
pub fn encode_ok(display: &str) -> (r: String)
    ensures
        r@ == ok_frame(display@),
{
    let mut out = String::from_str("{\"ok\":");
    let q = quote(display);
    out.append(q.as_str());
    out.append("}");
    out
}

/// The frame for a list of syntax errors, kept in order.
pub fn encode_err(errors: &Vec<String>) -> (r: String)
    ensures
        r@ == err_frame(texts(errors@)),
{
    let ghost msgs = texts(errors@);
    let mut list = String::new();
    let mut i: usize = 0;
    while i < errors.len()
        invariant
            i <= errors@.len(),
            msgs == texts(errors@),
            list@ == quoted_list(msgs.subrange(0, i as int)),
        decreases errors@.len() - i,
    {
        if i > 0 {
            list.append(",");
        }
        let q = quote(errors[i].as_str());
        list.append(q.as_str());
        proof {
            let next = msgs.subrange(0, i + 1);
            assert(next.drop_last() =~= msgs.subrange(0, i as int));
            assert(next.last() == errors@[i as int]@);
            if i == 0 {
                assert(msgs.subrange(0, 0) =~= Seq::<Seq<char>>::empty());
            }
        }
        i = i + 1;
    }
    assert(msgs.subrange(0, errors@.len() as int) =~= msgs);
    let mut out = String::from_str("{\"err\":[");
    out.append(list.as_str());
    out.append("]}");
    out
}

} // verus!
