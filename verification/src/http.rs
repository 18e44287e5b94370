//! The values that travel between the front-end and the isolate: header
//! lists, requests, responses, and the result of running a handler.

use vstd::prelude::*;
use vstd::string::{StrSliceExecFns, StringExecFns, StringSliceAdditionalSpecFns};
use vstd::utf8::encode_utf8;

verus! {

broadcast use Seq::lemma_filter_push;

/// A header list as a sequence of (name, value) pairs, oldest first.
pub type HeaderList = Seq<(Seq<char>, Seq<char>)>;

/// The lower-case form of an ASCII capital; every other character is itself.
pub open spec fn lower_char(c: char) -> char {
    if 'A' <= c && c <= 'Z' {
        ((c as u8) + 32) as char
    } else {
        c
    }
}

/// A name with its ASCII capitals in lower case.
pub open spec fn lower(name: Seq<char>) -> Seq<char> {
    name.map_values(|c: char| lower_char(c))
}

/// Names are kept in lower case.
pub open spec fn normal(list: HeaderList) -> bool {
    forall|i: int| 0 <= i < list.len() ==> (#[trigger] list[i]).0 == lower(list[i].0)
}

/// The test for an entry under `name`.
pub open spec fn is_named(name: Seq<char>) -> spec_fn((Seq<char>, Seq<char>)) -> bool {
    |e: (Seq<char>, Seq<char>)| e.0 == name
}

/// The test for an entry under another name than `name`.
pub open spec fn not_named(name: Seq<char>) -> spec_fn((Seq<char>, Seq<char>)) -> bool {
    |e: (Seq<char>, Seq<char>)| e.0 != name
}

/// The value of an entry.
pub open spec fn value_of() -> spec_fn((Seq<char>, Seq<char>)) -> Seq<char> {
    |e: (Seq<char>, Seq<char>)| e.1
}

/// The entries of `list` under another name than `name`, in their order.
pub open spec fn without(list: HeaderList, name: Seq<char>) -> HeaderList {
    list.filter(not_named(name))
}

/// The values that `list` holds under `name`, in their order.
pub open spec fn values_of(list: HeaderList, name: Seq<char>) -> Seq<Seq<char>> {
    list.filter(is_named(name)).map_values(value_of())
}

/// Values joined into one, a comma and a space between neighbours, as a
/// reader of combined header values expects them.
pub open spec fn joined(values: Seq<Seq<char>>) -> Seq<char>
    decreases values.len(),
{
    if values.len() == 0 {
        Seq::empty()
    } else if values.len() == 1 {
        values[0]
    } else {
        joined(values.drop_last()) + seq![',', ' '] + values.last()
    }
}

/// `str::to_ascii_lowercase`: a copy of the string in which the ASCII letters
/// 'A' to 'Z' are replaced by 'a' to 'z' and every other character is kept.
#[verifier::external_body]
fn to_lower(name: &str) -> (r: String)
    ensures
        r@ == lower(name@),
{
    name.to_ascii_lowercase()
}

/// Lower-casing twice is lower-casing once.
pub proof fn lemma_lower_idempotent(name: Seq<char>)
    ensures
        lower(lower(name)) == lower(name),
{
    assert forall|c: char| lower_char(lower_char(c)) == lower_char(c) by {}
    assert(lower(lower(name)) =~= lower(name));
}

/// After `set`, the name holds the one value that was set, and every other
/// name holds what it held.
pub proof fn law_set_replaces(list: HeaderList, name: Seq<char>, value: Seq<char>, other: Seq<char>)
    requires
        other != name,
    ensures
        values_of(without(list, name).push((name, value)), name) == seq![value],
        joined(values_of(without(list, name).push((name, value)), name)) == value,
        values_of(without(list, name).push((name, value)), other) == values_of(list, other),
{
    lemma_without(list, name, other);
    let kept = without(list, name);
    assert(kept.push((name, value)).filter(is_named(name)) == kept.filter(is_named(name)).push(
        (name, value),
    ));
    assert(kept.filter(is_named(name)) =~= Seq::empty());
    assert(kept.filter(is_named(name)).push((name, value)).map_values(value_of()) =~= seq![value]);
    assert(kept.push((name, value)).filter(is_named(other)) == kept.filter(is_named(other)));
}

/// After `append`, the name holds the new value behind those it held, and
/// every other name holds what it held.
pub proof fn law_append_adds(list: HeaderList, name: Seq<char>, value: Seq<char>, other: Seq<char>)
    requires
        other != name,
    ensures
        values_of(list.push((name, value)), name) == values_of(list, name).push(value),
        values_of(list.push((name, value)), other) == values_of(list, other),
{
    assert(list.push((name, value)).filter(is_named(name)) == list.filter(is_named(name)).push(
        (name, value),
    ));
    assert(list.filter(is_named(name)).push((name, value)).map_values(value_of())
        =~= list.filter(is_named(name)).map_values(value_of()).push(value));
    assert(list.push((name, value)).filter(is_named(other)) == list.filter(is_named(other)));
}

/// Dropping a name leaves it no value and every other name its values.
pub proof fn lemma_without(list: HeaderList, name: Seq<char>, other: Seq<char>)
    requires
        other != name,
    ensures
        without(list, name).filter(is_named(name)).len() == 0,
        without(list, name).filter(is_named(other)) == list.filter(is_named(other)),
    decreases list.len(),
{
    if list.len() == 0 {
        assert(list.filter(not_named(name)) =~= list) by {
            reveal(Seq::filter);
        }
        assert(list.filter(is_named(name)).len() == 0) by {
            reveal(Seq::filter);
        }
    } else {
        let front = list.drop_last();
        let last = list.last();
        lemma_without(front, name, other);
        assert(front.push(last) =~= list);
        assert(front.push(last).filter(not_named(name)) == if not_named(name)(last) {
            front.filter(not_named(name)).push(last)
        } else {
            front.filter(not_named(name))
        });
        assert(front.push(last).filter(is_named(other)) == if is_named(other)(last) {
            front.filter(is_named(other)).push(last)
        } else {
            front.filter(is_named(other))
        });
        if not_named(name)(last) {
            let kept = front.filter(not_named(name));
            assert(kept.push(last).filter(is_named(name)) == kept.filter(is_named(name)));
            assert(kept.push(last).filter(is_named(other)) == if is_named(other)(last) {
                kept.filter(is_named(other)).push(last)
            } else {
                kept.filter(is_named(other))
            });
        }
    }
}

/// A header multimap: names compare without regard to ASCII case, and a name
/// may hold several values.
#[derive(Debug, PartialEq, Eq)]
pub struct Headers {
    entries: Vec<(String, String)>,
}

impl View for Headers {
    type V = HeaderList;

    closed spec fn view(&self) -> HeaderList {
        self.entries@.map_values(|e: (String, String)| (e.0@, e.1@))
    }
}

impl Headers {
    /// The empty list.
    pub fn new() -> (r: Headers)
        ensures
            r@ == HeaderList::empty(),
    {
        let r = Headers { entries: Vec::new() };
        assert(r@ =~= HeaderList::empty());
        r
    }

    /// The number of entries; a name with two values counts twice.
    pub fn len(&self) -> (n: usize)
        ensures
            n == self@.len(),
    {
        self.entries.len()
    }

    /// Adds a value under `name`, keeping what the name already holds.
    pub fn append(&mut self, name: &str, value: String)
        ensures
            final(self)@ == old(self)@.push((lower(name@), value@)),
            normal(old(self)@) ==> normal(final(self)@),
    {
        proof {
            lemma_lower_idempotent(name@);
        }
        let key = to_lower(name);
        self.entries.push((key, value));
        assert(self@ =~= old(self)@.push((lower(name@), value@)));
    }

    /// Replaces whatever `name` holds by the single value `value`, as the
    /// newest entry.
    pub fn set(&mut self, name: &str, value: String)
        ensures
            final(self)@ == without(old(self)@, lower(name@)).push((lower(name@), value@)),
            normal(old(self)@) ==> normal(final(self)@),
    {
        self.remove(name);
        self.append(name, value);
    }

    /// Drops every value that `name` holds.
    pub fn remove(&mut self, name: &str)
        ensures
            final(self)@ == without(old(self)@, lower(name@)),
            normal(old(self)@) ==> normal(final(self)@),
    {
        let key = to_lower(name);
        let ghost pred = not_named(key@);
        let mut kept: Vec<(String, String)> = Vec::new();
        let mut i: usize = 0;
        while i < self.entries.len()
            invariant
                0 <= i <= self.entries.len(),
                self == old(self),
                pred == not_named(key@),
                kept@.map_values(|e: (String, String)| (e.0@, e.1@)) == self@.take(i as int).filter(
                    pred,
                ),
            decreases self.entries.len() - i,
        {
            let ghost before = kept@.map_values(|e: (String, String)| (e.0@, e.1@));
            let entry = &self.entries[i];
            assert(self@[i as int] == (entry.0@, entry.1@));
            assert(self@.take(i as int + 1) =~= self@.take(i as int).push(self@[i as int]));
            if !(entry.0 == key) {
                kept.push((entry.0.clone(), entry.1.clone()));
                assert(kept@.map_values(|e: (String, String)| (e.0@, e.1@)) =~= before.push(
                    self@[i as int],
                ));
            }
            i += 1;
        }
        assert(self@.take(i as int) =~= self@);
        let ghost result = kept@.map_values(|e: (String, String)| (e.0@, e.1@));
        assert(normal(self@) ==> normal(result)) by {
            assert forall|k: int| normal(self@) && 0 <= k < result.len() implies (#[trigger] result[k]).0
                == lower(result[k].0) by {
                self@.lemma_filter_contains_rev(pred, result[k]);
            }
        }
        self.entries = kept;
    }

    /// Whether `name` holds a value.
    pub fn has(&self, name: &str) -> (r: bool)
        ensures
            r == (values_of(self@, lower(name@)).len() > 0),
    {
        self.values(name).len() > 0
    }

    /// The values that `name` holds, oldest first.
    pub fn values(&self, name: &str) -> (r: Vec<String>)
        ensures
            r@.map_values(|s: String| s@) == values_of(self@, lower(name@)),
    {
        let key = to_lower(name);
        let ghost pred = is_named(key@);
        let ghost second = value_of();
        let mut found: Vec<String> = Vec::new();
        let mut i: usize = 0;
        while i < self.entries.len()
            invariant
                0 <= i <= self.entries.len(),
                pred == is_named(key@),
                second == value_of(),
                found@.map_values(|s: String| s@) == self@.take(i as int).filter(pred).map_values(
                    second,
                ),
            decreases self.entries.len() - i,
        {
            let ghost before = found@.map_values(|s: String| s@);
            let entry = &self.entries[i];
            assert(self@[i as int] == (entry.0@, entry.1@));
            assert(self@.take(i as int + 1) =~= self@.take(i as int).push(self@[i as int]));
            if entry.0 == key {
                found.push(entry.1.clone());
                assert(found@.map_values(|s: String| s@) =~= before.push(entry.1@));
                assert(self@.take(i as int).filter(pred).push(self@[i as int]).map_values(second)
                    =~= self@.take(i as int).filter(pred).map_values(second).push(entry.1@));
            }
            i += 1;
        }
        assert(self@.take(i as int) =~= self@);
        found
    }

    /// What a reader sees under `name`: nothing where the name holds no value,
    /// else its values joined by a comma and a space.
    pub fn get(&self, name: &str) -> (r: Option<String>)
        ensures
            r is Some <==> values_of(self@, lower(name@)).len() > 0,
            r matches Some(text) ==> text@ == joined(values_of(self@, lower(name@))),
    {
        let found = self.values(name);
        if found.len() == 0 {
            return None;
        }
        let ghost all = found@.map_values(|s: String| s@);
        let mut text = found[0].clone();
        assert(all.take(1) =~= seq![found[0]@]);
        assert(joined(all.take(1)) == found[0]@);
        let mut i: usize = 1;
        while i < found.len()
            invariant
                1 <= i <= found.len(),
                all == found@.map_values(|s: String| s@),
                text@ == joined(all.take(i as int)),
            decreases found.len() - i,
        {
            proof {
                reveal_strlit(", ");
                assert(all.take(i as int + 1).drop_last() =~= all.take(i as int));
                assert(all.take(i as int + 1).last() == found[i as int]@);
            }
            text.append(", ");
            text.append(found[i].as_str());
            assert(text@ =~= joined(all.take(i as int)) + seq![',', ' '] + found[i as int]@);
            i += 1;
        }
        assert(all.take(i as int) =~= all);
        Some(text)
    }

    /// The entries as (name, value) pairs, oldest first.
    pub fn to_vec(&self) -> (r: Vec<(String, String)>)
        ensures
            r@.map_values(|e: (String, String)| (e.0@, e.1@)) == self@,
    {
        let mut out: Vec<(String, String)> = Vec::new();
        let mut i: usize = 0;
        while i < self.entries.len()
            invariant
                0 <= i <= self.entries.len(),
                out@.map_values(|e: (String, String)| (e.0@, e.1@)) == self@.take(i as int),
            decreases self.entries.len() - i,
        {
            let ghost before = out@.map_values(|e: (String, String)| (e.0@, e.1@));
            let entry = &self.entries[i];
            assert(self@[i as int] == (entry.0@, entry.1@));
            assert(self@.take(i as int + 1) =~= self@.take(i as int).push(self@[i as int]));
            out.push((entry.0.clone(), entry.1.clone()));
            assert(out@.map_values(|e: (String, String)| (e.0@, e.1@)) =~= before.push(
                self@[i as int],
            ));
            i += 1;
        }
        assert(self@.take(i as int) =~= self@);
        out
    }
}

/// A body: either all of its bytes, or the handle of a stream that yields them.
#[derive(Debug, PartialEq, Eq)]
pub enum Body {
    Bytes(Vec<u8>),
    Stream(u64),
}

/// What a `Body` stands for.
pub enum BodyModel {
    Bytes(Seq<u8>),
    Stream(u64),
}

impl View for Body {
    type V = BodyModel;

    open spec fn view(&self) -> BodyModel {
        match self {
            Body::Bytes(bytes) => BodyModel::Bytes(bytes@),
            Body::Stream(handle) => BodyModel::Stream(*handle),
        }
    }
}

/// An incoming request. `arrival` is the reading of the monotonic clock, in
/// milliseconds, at which the front-end accepted it.
#[derive(Debug, PartialEq, Eq)]
pub struct Request {
    pub method: String,
    pub url: String,
    pub headers: Headers,
    pub body: Body,
    pub arrival: u64,
}

/// What a `Request` stands for.
pub struct RequestModel {
    pub method: Seq<char>,
    pub url: Seq<char>,
    pub headers: HeaderList,
    pub body: BodyModel,
    pub arrival: u64,
}

impl View for Request {
    type V = RequestModel;

    open spec fn view(&self) -> RequestModel {
        RequestModel {
            method: self.method@,
            url: self.url@,
            headers: self.headers@,
            body: self.body@,
            arrival: self.arrival,
        }
    }
}

impl Request {
    /// A request without headers and with an empty body.
    pub fn new(method: String, url: String, arrival: u64) -> (r: Request)
        ensures
            r@ == (RequestModel {
                method: method@,
                url: url@,
                headers: HeaderList::empty(),
                body: BodyModel::Bytes(Seq::empty()),
                arrival,
            }),
    {
        Request { method, url, headers: Headers::new(), body: Body::Bytes(Vec::new()), arrival }
    }

    /// Gives `name` the single value `value`; the rest of the request stays.
    pub fn set_header(&mut self, name: &str, value: String)
        ensures
            final(self)@ == (RequestModel {
                headers: without(old(self)@.headers, lower(name@)).push((lower(name@), value@)),
                ..old(self)@
            }),
            normal(old(self)@.headers) ==> normal(final(self)@.headers),
    {
        self.headers.set(name, value);
    }
}

/// The status of a response that names none.
pub const DEFAULT_STATUS: u16 = 200;

/// A response: status, headers and body.
#[derive(Debug, PartialEq, Eq)]
pub struct Response {
    pub status: u16,
    pub headers: Headers,
    pub body: Body,
}

/// What a `Response` stands for.
pub struct ResponseModel {
    pub status: u16,
    pub headers: HeaderList,
    pub body: BodyModel,
}

impl View for Response {
    type V = ResponseModel;

    open spec fn view(&self) -> ResponseModel {
        ResponseModel { status: self.status, headers: self.headers@, body: self.body@ }
    }
}

impl Response {
    /// The response that a bare status stands for: no header, no byte.
    pub open spec fn bare(status: u16) -> ResponseModel {
        ResponseModel {
            status,
            headers: HeaderList::empty(),
            body: BodyModel::Bytes(Seq::empty()),
        }
    }

    /// A response with the default status, no header, and `body` as its bytes.
    pub fn new(body: Vec<u8>) -> (r: Response)
        ensures
            r@ == (ResponseModel { body: BodyModel::Bytes(body@), ..Self::bare(DEFAULT_STATUS) }),
    {
        Response { status: DEFAULT_STATUS, headers: Headers::new(), body: Body::Bytes(body) }
    }

    /// A response with the default status, no header, and the UTF-8 bytes
    /// of `body`.
    pub fn text(body: &str) -> (r: Response)
        ensures
            r@ == (ResponseModel {
                body: BodyModel::Bytes(encode_utf8(body@)),
                ..Self::bare(DEFAULT_STATUS)
            }),
    {
        Response::new(body.as_bytes_vec())
    }

    /// A response with the given status, no header and no byte.
    pub fn with_status(status: u16) -> (r: Response)
        ensures
            r@ == Self::bare(status),
    {
        Response { status, headers: Headers::new(), body: Body::Bytes(Vec::new()) }
    }
}

impl Default for Response {
    fn default() -> (r: Response)
        ensures
            r@ == Response::bare(DEFAULT_STATUS),
    {
        Response::with_status(DEFAULT_STATUS)
    }
}

/// The head of a streamed response: what is known before the first chunk.
#[derive(Debug, PartialEq, Eq)]
pub struct StreamMeta {
    pub status: u16,
    pub headers: Headers,
}

/// What a `StreamMeta` stands for.
pub struct StreamMetaModel {
    pub status: u16,
    pub headers: HeaderList,
}

impl View for StreamMeta {
    type V = StreamMetaModel;

    open spec fn view(&self) -> StreamMetaModel {
        StreamMetaModel { status: self.status, headers: self.headers@ }
    }
}

/// How the run of a handler ended, as the front-end sees it.
#[derive(Debug, PartialEq, Eq)]
pub enum RunResult {
    /// The handler returned a response whose body is at hand.
    Response(Response),
    /// The handler returned a response whose body follows in chunks.
    Stream(StreamMeta),
    /// An exception escaped the script; the text describes it.
    Error(String),
    /// The request ran longer than its wall-clock budget.
    Timeout,
    /// The isolate reached its heap limit.
    MemoryLimit,
}

/// What a `RunResult` stands for.
pub enum RunResultModel {
    Response(ResponseModel),
    Stream(StreamMetaModel),
    Error(Seq<char>),
    Timeout,
    MemoryLimit,
}

impl View for RunResult {
    type V = RunResultModel;

    open spec fn view(&self) -> RunResultModel {
        match self {
            RunResult::Response(response) => RunResultModel::Response(response@),
            RunResult::Stream(meta) => RunResultModel::Stream(meta@),
            RunResult::Error(message) => RunResultModel::Error(message@),
            RunResult::Timeout => RunResultModel::Timeout,
            RunResult::MemoryLimit => RunResultModel::MemoryLimit,
        }
    }
}

} // verus!
