use vstd::prelude::*;

verus! {

/// One proxied request/response pair, as it is stored and shown.
#[derive(Clone, Debug, PartialEq, Eq)]
pub struct LogEntry {
    pub method: String,
    pub uri: String,
    pub headers: Vec<(String, String)>,
    pub body: String,
    pub response_status: u16,
    pub response_headers: Vec<(String, String)>,
    pub response_body: String,
    pub response_time: u128,
}

/// The snapshot of the history, oldest record first.
#[derive(Clone, Debug, PartialEq, Eq)]
pub struct Log {
    pub requests: Vec<LogEntry>,
}

/// What a record holds, as mathematical values.
pub struct EntryView {
    pub method: Seq<char>,
    pub uri: Seq<char>,
    pub headers: Seq<(Seq<char>, Seq<char>)>,
    pub body: Seq<char>,
    pub response_status: u16,
    pub response_headers: Seq<(Seq<char>, Seq<char>)>,
    pub response_body: Seq<char>,
    pub response_time: u128,
}

/// The text of each (name, value) pair, in order.
pub open spec fn pairs_view(s: Seq<(String, String)>) -> Seq<(Seq<char>, Seq<char>)> {
    s.map_values(|p: (String, String)| (p.0@, p.1@))
}

/// The view of each record, in order.
pub open spec fn entries_view(s: Seq<LogEntry>) -> Seq<EntryView> {
    s.map_values(|e: LogEntry| e@)
}

impl View for LogEntry {
    type V = EntryView;

    open spec fn view(&self) -> EntryView {
        EntryView {
            method: self.method@,
            uri: self.uri@,
            headers: pairs_view(self.headers@),
            body: self.body@,
            response_status: self.response_status,
            response_headers: pairs_view(self.response_headers@),
            response_body: self.response_body@,
            response_time: self.response_time,
        }
    }
}

impl View for Log {
    type V = Seq<EntryView>;

    open spec fn view(&self) -> Seq<EntryView> {
        entries_view(self.requests@)
    }
}

/// Copies a list of text header pairs, keeping order and duplicates.
pub fn copy_pairs(pairs: &Vec<(String, String)>) -> (r: Vec<(String, String)>)
    ensures
        r@ == pairs@,
{
    let mut r: Vec<(String, String)> = Vec::new();
    let mut i: usize = 0;
    while i < pairs.len()
        invariant
            i <= pairs@.len(),
            r@ == pairs@.subrange(0, i as int),
        decreases pairs@.len() - i,
    {
        let pair = (pairs[i].0.clone(), pairs[i].1.clone());
        r.push(pair);
        i = i + 1;
        assert(r@ =~= pairs@.subrange(0, i as int));
    }
    assert(r@ =~= pairs@);
    r
}

impl LogEntry {
    /// A field-for-field copy of the record.
    pub fn duplicate(&self) -> (r: LogEntry)
        ensures
            r@ == self@,
    {
        LogEntry {
            method: self.method.clone(),
            uri: self.uri.clone(),
            headers: copy_pairs(&self.headers),
            body: self.body.clone(),
            response_status: self.response_status,
            response_headers: copy_pairs(&self.response_headers),
            response_body: self.response_body.clone(),
            response_time: self.response_time,
        }
    }
}

} // verus!
