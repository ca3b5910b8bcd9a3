//! The transaction recorder: a bounded ring of request/response records, oldest first.

use vstd::prelude::*;
use std::time::Duration;
use crate::body::{
    analysis, analyze_body, opt_view, content_type_of, essence_of, header_str, header_value_text,
    BodyRecord, HeaderPair,
};
use crate::text::same_text;

verus! {

/// The HTTP version of a message.
#[derive(Clone, Copy, Debug, PartialEq, Eq, Structural)]
pub enum HttpVersion {
    Http09,
    Http10,
    Http11,
    H2,
    H3,
}

/// The label under which a version is recorded.
pub open spec fn version_label(v: HttpVersion) -> Seq<char> {
    match v {
        HttpVersion::Http09 => "HTTP/0.9"@,
        HttpVersion::Http10 => "HTTP/1.0"@,
        HttpVersion::Http11 => "HTTP/1.1"@,
        HttpVersion::H2 => "HTTP/2.0"@,
        HttpVersion::H3 => "HTTP/3.0"@,
    }
}

impl HttpVersion {
    /// The label under which this version is recorded.
    pub fn label(&self) -> (r: String)
        ensures
            r@ == version_label(*self),
    {
        match self {
            HttpVersion::Http09 => String::from_str("HTTP/0.9"),
            HttpVersion::Http10 => String::from_str("HTTP/1.0"),
            HttpVersion::Http11 => String::from_str("HTTP/1.1"),
            HttpVersion::H2 => String::from_str("HTTP/2.0"),
            HttpVersion::H3 => String::from_str("HTTP/3.0"),
        }
    }
}

/// A request as received, handed to the recorder.
pub struct RequestInfo {
    pub method: String,
    pub path: String,
    pub version: HttpVersion,
    pub headers: Vec<HeaderPair>,
    pub body: Vec<u8>,
    pub client_addr: String,
    pub truncate_at: usize,
}

/// An upstream response, handed to the recorder.
pub struct ResponseInfo {
    pub request_id: String,
    pub status: u16,
    pub version: HttpVersion,
    pub headers: Vec<HeaderPair>,
    pub body: Vec<u8>,
    pub duration_ms: u64,
    pub truncate_at: usize,
}

/// The recorded side of a request.
pub struct RequestRecord {
    pub id: String,
    pub timestamp: u64,
    pub method: String,
    pub path: String,
    pub version: String,
    pub headers: Vec<(String, String)>,
    pub body: BodyRecord,
    pub client_addr: String,
}

/// The recorded side of a response.
pub struct ResponseRecord {
    pub id: String,
    pub timestamp: u64,
    pub status: u16,
    pub version: String,
    pub headers: Vec<(String, String)>,
    pub body: BodyRecord,
    pub duration_ms: u64,
}

/// One request with its outcome: a response, an error, or neither yet.
pub struct HttpTransaction {
    pub request: RequestRecord,
    pub response: Option<ResponseRecord>,
    pub error: Option<String>,
}

/// The model of a recorded request.
pub struct RequestView {
    pub id: Seq<char>,
    pub timestamp: u64,
    pub method: Seq<char>,
    pub path: Seq<char>,
    pub version: Seq<char>,
    pub headers: Seq<(Seq<char>, Seq<char>)>,
    pub body: BodyRecord,
    pub client_addr: Seq<char>,
}

/// The model of a recorded response.
pub struct ResponseView {
    pub id: Seq<char>,
    pub timestamp: u64,
    pub status: u16,
    pub version: Seq<char>,
    pub headers: Seq<(Seq<char>, Seq<char>)>,
    pub body: BodyRecord,
    pub duration_ms: u64,
}

/// The model of a transaction.
pub struct TransactionView {
    pub request: RequestView,
    pub response: Option<ResponseView>,
    pub error: Option<Seq<char>>,
}

/// The text of each pair.
pub open spec fn pairs_view(v: Seq<(String, String)>) -> Seq<(Seq<char>, Seq<char>)> {
    v.map_values(|p: (String, String)| (p.0@, p.1@))
}

impl View for RequestRecord {
    type V = RequestView;

    open spec fn view(&self) -> RequestView {
        RequestView {
            id: self.id@,
            timestamp: self.timestamp,
            method: self.method@,
            path: self.path@,
            version: self.version@,
            headers: pairs_view(self.headers@),
            body: self.body,
            client_addr: self.client_addr@,
        }
    }
}

impl View for ResponseRecord {
    type V = ResponseView;

    open spec fn view(&self) -> ResponseView {
        ResponseView {
            id: self.id@,
            timestamp: self.timestamp,
            status: self.status,
            version: self.version@,
            headers: pairs_view(self.headers@),
            body: self.body,
            duration_ms: self.duration_ms,
        }
    }
}

impl View for HttpTransaction {
    type V = TransactionView;

    open spec fn view(&self) -> TransactionView {
        TransactionView {
            request: self.request@,
            response: match self.response {
                Some(r) => Some(r@),
                None => None,
            },
            error: opt_view(self.error),
        }
    }
}

/// The model of each transaction.
pub open spec fn transactions_view(v: Seq<HttpTransaction>) -> Seq<TransactionView> {
    v.map_values(|t: HttpTransaction| t@)
}

fn copy_pairs(v: &Vec<(String, String)>) -> (r: Vec<(String, String)>)
    ensures
        r@ == v@,
{
    let mut r: Vec<(String, String)> = Vec::new();
    let mut i: usize = 0;
    while i < v.len()
        invariant
            i <= v@.len(),
            r@ == v@.subrange(0, i as int),
        decreases v@.len() - i,
    {
        let p = (v[i].0.clone(), v[i].1.clone());
        r.push(p);
        i += 1;
        assert(r@ =~= v@.subrange(0, i as int));
    }
    assert(v@.subrange(0, v@.len() as int) =~= v@);
    r
}

impl Clone for RequestRecord {
    fn clone(&self) -> (r: Self)
        ensures
            r@ == self@,
    {
        RequestRecord {
            id: self.id.clone(),
            timestamp: self.timestamp,
            method: self.method.clone(),
            path: self.path.clone(),
            version: self.version.clone(),
            headers: copy_pairs(&self.headers),
            body: self.body.clone(),
            client_addr: self.client_addr.clone(),
        }
    }
}

impl Clone for ResponseRecord {
    fn clone(&self) -> (r: Self)
        ensures
            r@ == self@,
    {
        ResponseRecord {
            id: self.id.clone(),
            timestamp: self.timestamp,
            status: self.status,
            version: self.version.clone(),
            headers: copy_pairs(&self.headers),
            body: self.body.clone(),
            duration_ms: self.duration_ms,
        }
    }
}

impl Clone for HttpTransaction {
    fn clone(&self) -> (r: Self)
        ensures
            r@ == self@,
    {
        let response = match &self.response {
            Some(x) => Some(x.clone()),
            None => None,
        };
        let error = match &self.error {
            Some(e) => Some(e.clone()),
            None => None,
        };
        HttpTransaction { request: self.request.clone(), response, error }
    }
}

/// `r` records the headers `h`: each name kept, each value as text or `<invalid>`.
pub open spec fn records_headers(r: Seq<(Seq<char>, Seq<char>)>, h: Seq<HeaderPair>) -> bool {
    &&& r.len() == h.len()
    &&& forall|j: int|
        0 <= j < h.len() ==> {
            &&& #[trigger] r[j].0 == h[j].0@
            &&& r[j].1 == match header_str(h[j].1@) {
                Some(t) => t,
                None => "<invalid>"@,
            }
        }
}

/// Records a header list.
pub fn record_headers(h: &Vec<HeaderPair>) -> (r: Vec<(String, String)>)
    ensures
        records_headers(pairs_view(r@), h@),
{
    let mut r: Vec<(String, String)> = Vec::new();
    let mut i: usize = 0;
    while i < h.len()
        invariant
            i <= h@.len(),
            r@.len() == i,
            forall|j: int|
                0 <= j < i ==> {
                    &&& #[trigger] r@[j].0@ == h@[j].0@
                    &&& r@[j].1@ == match header_str(h@[j].1@) {
                        Some(t) => t,
                        None => "<invalid>"@,
                    }
                },
        decreases h@.len() - i,
    {
        let name = h[i].0.clone();
        let value = header_value_text(h[i].1.as_slice());
        r.push((name, value));
        i += 1;
    }
    assert(records_headers(pairs_view(r@), h@));
    r
}

/// `t` is the fresh transaction that records request `info` under id `id`.
pub open spec fn request_recorded(t: TransactionView, info: RequestInfo, id: Seq<char>) -> bool {
    &&& t.request.id == id
    &&& t.request.method == info.method@
    &&& t.request.path == info.path@
    &&& t.request.version == version_label(info.version)
    &&& records_headers(t.request.headers, info.headers@)
    &&& analysis(
        t.request.body,
        info.body@,
        content_type_of(info.headers@),
        essence_of(content_type_of(info.headers@)),
        info.truncate_at as nat,
    )
    &&& t.request.client_addr == info.client_addr@
    &&& t.response is None
    &&& t.error is None
}

/// `r` records response `info`.
pub open spec fn response_recorded(r: ResponseView, info: ResponseInfo) -> bool {
    &&& r.id == info.request_id@
    &&& r.status == info.status
    &&& r.version == version_label(info.version)
    &&& records_headers(r.headers, info.headers@)
    &&& analysis(
        r.body,
        info.body@,
        content_type_of(info.headers@),
        essence_of(content_type_of(info.headers@)),
        info.truncate_at as nat,
    )
    &&& r.duration_ms == info.duration_ms
}

/// The last `k` elements of `s` (all of them where there are fewer).
pub open spec fn keep_last<T>(s: Seq<T>, k: nat) -> Seq<T> {
    if s.len() <= k { s } else { s.subrange(s.len() - k, s.len() as int) }
}

/// Some transaction of `s` records a request with id `id`.
pub open spec fn holds_id(s: Seq<TransactionView>, id: Seq<char>) -> bool {
    exists|i: int| 0 <= i < s.len() && (#[trigger] s[i]).request.id == id
}

/// `i` is the first transaction of `s` whose request has id `id`.
pub open spec fn first_with_id(s: Seq<TransactionView>, id: Seq<char>, i: int) -> bool {
    &&& 0 <= i < s.len()
    &&& s[i].request.id == id
    &&& forall|j: int| 0 <= j < i ==> (#[trigger] s[j]).request.id != id
}

/// `new` is `old` with a record of response `info` attached to the first transaction
/// whose request has the response's id, or `old` itself where none has.
pub open spec fn response_attached(old: Seq<TransactionView>, new: Seq<TransactionView>, info: ResponseInfo) -> bool {
    &&& !holds_id(old, info.request_id@) ==> new == old
    &&& forall|i: int|
        first_with_id(old, info.request_id@, i) ==> {
            &&& new.len() == old.len()
            &&& forall|j: int| 0 <= j < old.len() && j != i ==> new[j] == old[j]
            &&& new[i].request == old[i].request
            &&& new[i].error == old[i].error
            &&& new[i].response matches Some(r) && response_recorded(r, info)
        }
}

/// `new` is `old` with error `e` attached to the first transaction whose request has
/// id `id`, or `old` itself where none has.
pub open spec fn error_attached(old: Seq<TransactionView>, new: Seq<TransactionView>, id: Seq<char>, e: Seq<char>) -> bool {
    &&& !holds_id(old, id) ==> new == old
    &&& forall|i: int|
        first_with_id(old, id, i) ==> {
            &&& new.len() == old.len()
            &&& forall|j: int| 0 <= j < old.len() && j != i ==> new[j] == old[j]
            &&& new[i].request == old[i].request
            &&& new[i].response == old[i].response
            &&& new[i].error == Some(e)
        }
}

/// Relies on std's `SystemTime::elapsed`, on the Unix epoch: the wall-clock time
/// since then, where the clock is not set before it.
#[verifier::external_body]
fn since_epoch() -> (r: Option<Duration>) {
    std::time::UNIX_EPOCH.elapsed().ok()
}

/// Relies on std's `Duration::as_millis`.
#[verifier::external_body]
fn whole_millis(d: &Duration) -> (r: u128) {
    d.as_millis()
}

/// Relies on uuid's `Uuid::new_v4` and its `Display`: a random id in the
/// 36-character hyphenated form.
#[verifier::external_body]
pub(crate) fn fresh_id() -> (r: String)
    ensures
        r@.len() == 36,
{
    uuid::Uuid::new_v4().to_string()
}

fn now_ms() -> u64 {
    match since_epoch() {
        Some(d) => whole_millis(&d) as u64,
        None => 0,
    }
}

/// The bounded ring of transactions, oldest first.
pub struct RequestRecorder {
    transactions: Vec<HttpTransaction>,
    max_size: usize,
}

impl View for RequestRecorder {
    type V = Seq<TransactionView>;

    closed spec fn view(&self) -> Seq<TransactionView> {
        transactions_view(self.transactions@)
    }
}

impl RequestRecorder {
    /// The number of transactions the ring retains at most.
    pub closed spec fn capacity(&self) -> nat {
        self.max_size as nat
    }

    /// The ring holds no more transactions than its capacity.
    pub open spec fn wf(&self) -> bool {
        self@.len() <= self.capacity()
    }

    /// An empty ring that retains at most `max_size` transactions.
    pub fn new(max_size: usize) -> (r: Self)
        ensures
            r.wf(),
            r@ == Seq::<TransactionView>::empty(),
            r.capacity() == max_size,
    {
        RequestRecorder { transactions: Vec::new(), max_size }
    }

    /// Records a request under a fresh id, which it returns: the new transaction
    /// goes to the tail, and the oldest leave while there are more than the capacity.
    pub fn record_request(&mut self, info: RequestInfo) -> (id: String)
        requires
            old(self).wf(),
        ensures
            final(self).wf(),
            final(self).capacity() == old(self).capacity(),
            old(self).capacity() == 0 ==> final(self)@ == old(self)@,
            old(self).capacity() > 0 ==> {
                &&& request_recorded(final(self)@.last(), info, id@)
                &&& final(self)@ == keep_last(old(self)@.push(final(self)@.last()), old(self).capacity())
            },
    {
        let id = fresh_id();
        let timestamp = now_ms();
        let body = analyze_body(info.body.as_slice(), &info.headers, info.truncate_at);
        let headers = record_headers(&info.headers);
        let request = RequestRecord {
            id: id.clone(),
            timestamp,
            method: info.method,
            path: info.path,
            version: info.version.label(),
            headers,
            body,
            client_addr: info.client_addr,
        };
        let t = HttpTransaction { request, response: None, error: None };
        if self.max_size == 0 {
            return id;
        }
        let ghost before = self.transactions@;
        if self.transactions.len() >= self.max_size {
            self.transactions.remove(0);
        }
        self.transactions.push(t);
        proof {
            let pushed = transactions_view(before).push(t@);
            assert(self@.last() == t@);
            if before.len() >= self.max_size {
                assert(self@ =~= pushed.subrange(pushed.len() - self.max_size, pushed.len() as int));
            } else {
                assert(self@ =~= pushed);
            }
        }
        id
    }

    /// Attaches a response to the first transaction whose request has the response's
    /// id; does nothing where none has (it was evicted).
    pub fn record_response(&mut self, info: ResponseInfo)
        requires
            old(self).wf(),
        ensures
            final(self).wf(),
            final(self).capacity() == old(self).capacity(),
            response_attached(old(self)@, final(self)@, info),
    {
        let timestamp = now_ms();
        let body = analyze_body(info.body.as_slice(), &info.headers, info.truncate_at);
        let headers = record_headers(&info.headers);
        let response = ResponseRecord {
            id: info.request_id.clone(),
            timestamp,
            status: info.status,
            version: info.version.label(),
            headers,
            body,
            duration_ms: info.duration_ms,
        };
        match self.position_of(info.request_id.as_str()) {
            Some(i) => {
                self.transactions[i].response = Some(response);
            },
            None => {},
        }
    }

    /// Attaches an error to the first transaction whose request has id `request_id`;
    /// does nothing where none has (it was evicted).
    pub fn record_error(&mut self, request_id: &str, error: String)
        requires
            old(self).wf(),
        ensures
            final(self).wf(),
            final(self).capacity() == old(self).capacity(),
            error_attached(old(self)@, final(self)@, request_id@, error@),
    {
        match self.position_of(request_id) {
            Some(i) => {
                self.transactions[i].error = Some(error);
            },
            None => {},
        }
    }

    fn position_of(&self, id: &str) -> (r: Option<usize>)
        ensures
            r is None ==> !holds_id(self@, id@),
            r matches Some(i) ==> first_with_id(self@, id@, i as int),
    {
        let n = self.transactions.len();
        let mut i: usize = 0;
        while i < n
            invariant
                i <= n,
                n == self@.len(),
                forall|j: int| 0 <= j < i ==> (#[trigger] self@[j]).request.id != id@,
            decreases n - i,
        {
            if same_text(self.transactions[i].request.id.as_str(), id) {
                return Some(i);
            }
            i += 1;
        }
        None
    }

    /// A copy of all transactions, oldest first.
    pub fn get_transactions(&self) -> (r: Vec<HttpTransaction>)
        ensures
            transactions_view(r@) == self@,
    {
        let r = self.transactions.clone();
        assert(transactions_view(r@) =~= self@);
        r
    }

    /// A copy of the `count` most recent transactions, oldest first.
    pub fn get_recent_transactions(&self, count: usize) -> (r: Vec<HttpTransaction>)
        ensures
            transactions_view(r@) == keep_last(self@, count as nat),
    {
        let n = self.transactions.len();
        let start: usize = if n > count { n - count } else { 0 };
        let mut r: Vec<HttpTransaction> = Vec::new();
        let mut i: usize = start;
        while i < n
            invariant
                start <= i <= n,
                n == self@.len(),
                transactions_view(r@) == self@.subrange(start as int, i as int),
            decreases n - i,
        {
            let c = self.transactions[i].clone();
            assert(c@ == self@[i as int]);
            let ghost prev = r@;
            r.push(c);
            assert(transactions_view(r@) =~= transactions_view(prev).push(c@));
            i += 1;
            assert(transactions_view(r@) =~= self@.subrange(start as int, i as int));
        }
        assert(self@.subrange(0, n as int) =~= self@);
        r
    }

    /// Removes every transaction.
    pub fn clear(&mut self)
        requires
            old(self).wf(),
        ensures
            final(self).wf(),
            final(self).capacity() == old(self).capacity(),
            final(self)@ == Seq::<TransactionView>::empty(),
    {
        self.transactions.clear();
    }

    /// Sets the capacity to `new_size`, evicting the oldest transactions beyond it.
    pub fn resize(&mut self, new_size: usize)
        requires
            old(self).wf(),
        ensures
            final(self).wf(),
            final(self).capacity() == new_size,
            final(self)@ == keep_last(old(self)@, new_size as nat),
    {
        let ghost before = self.transactions@;
        let n = self.transactions.len();
        if n > new_size {
            let drop = n - new_size;
            let kept = self.transactions.split_off(drop);
            self.transactions = kept;
            assert(self@ =~= transactions_view(before).subrange(drop as int, n as int));
        }
        self.max_size = new_size;
    }
}

/// The ring after recording each of `ts` in turn, from empty, with capacity `cap`.
pub open spec fn replay(ts: Seq<TransactionView>, cap: nat) -> Seq<TransactionView>
    decreases ts.len(),
{
    if ts.len() == 0 || cap == 0 {
        Seq::empty()
    } else {
        keep_last(replay(ts.drop_last(), cap).push(ts.last()), cap)
    }
}

/// Recording `N` transactions into a ring of capacity `C` retains `min(N, C)` of
/// them: exactly the last ones recorded, in the order of recording.
pub proof fn lemma_ring_keeps_last(ts: Seq<TransactionView>, cap: nat)
    ensures
        replay(ts, cap) == keep_last(ts, cap),
        replay(ts, cap).len() == if ts.len() < cap { ts.len() } else { cap },
    decreases ts.len(),
{
    if ts.len() == 0 {
        assert(keep_last(ts, cap) =~= ts);
    } else if cap == 0 {
        assert(keep_last(ts, cap) =~= Seq::<TransactionView>::empty());
    } else {
        let d = ts.drop_last();
        lemma_ring_keeps_last(d, cap);
        if d.len() <= cap {
            assert(d.push(ts.last()) =~= ts);
        } else {
            let k = d.subrange(d.len() - cap, d.len() as int);
            assert(k.push(ts.last()).subrange(1, cap + 1 as int) =~= ts.subrange(ts.len() - cap, ts.len() as int));
        }
    }
}

/// Shrinking to `k` leaves at most `k` transactions: the most recent ones, in order.
pub proof fn lemma_resize_keeps_recent(s: Seq<TransactionView>, k: nat)
    ensures
        keep_last(s, k).len() <= k,
        keep_last(s, k).len() == if s.len() < k { s.len() } else { k },
        forall|i: int|
            0 <= i < keep_last(s, k).len() ==> #[trigger] keep_last(s, k)[i] == s[s.len() - keep_last(s, k).len() + i],
{
}

} // verus!
