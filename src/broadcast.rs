use vstd::prelude::*;

verus! {

/// An instant in UTC: whole seconds since the Unix epoch, and nanoseconds into that second.
#[derive(Clone, Copy, Debug, PartialEq, Eq, Structural)]
pub struct Timestamp {
    pub secs: i64,
    pub nanos: u32,
}

impl Timestamp {
    pub open spec fn wf(&self) -> bool {
        self.nanos < 1_000_000_000
    }

    /// The instant `secs` seconds and `nanos` nanoseconds after the epoch; none when `nanos`
    /// is not below one second.
    pub fn new(secs: i64, nanos: u32) -> (r: Option<Timestamp>)
        ensures
            r is Some <==> nanos < 1_000_000_000,
            r is Some ==> r->0.secs == secs && r->0.nanos == nanos && r->0.wf(),
    {
        if nanos < 1_000_000_000 {
            Some(Timestamp { secs, nanos })
        } else {
            None
        }
    }
}

/// A bearer credential issued by the platform's token endpoint.
#[derive(Clone, Debug)]
pub struct OAuthResponse {
    pub access_token: String,
    pub expires_in: i64,
    pub token_type: String,
}

impl OAuthResponse {
    /// A field-for-field copy.
    pub fn duplicate(&self) -> (r: Self)
        ensures
            r == *self,
    {
        OAuthResponse {
            access_token: self.access_token.clone(),
            expires_in: self.expires_in,
            token_type: self.token_type.clone(),
        }
    }
}

/// A copy of an optional string.
pub fn copy_opt(s: &Option<String>) -> (r: Option<String>)
    ensures
        r == *s,
{
    match s {
        Some(v) => Some(v.clone()),
        None => None,
    }
}

/// One active broadcast as the platform lists it.
#[derive(Clone, Debug)]
pub struct LiveStream {
    /// Identifies one continuous broadcast session; a new session gets a new id.
    pub id: String,
    pub user_id: String,
    pub user_login: String,
    pub user_name: Option<String>,
    pub game_id: Option<String>,
    pub game_name: Option<String>,
    /// The platform's `type` field ("live").
    pub stream_type: String,
    pub title: Option<String>,
    pub viewer_count: i64,
    pub started_at: Timestamp,
    /// Image URL template holding `{width}` and `{height}` placeholders.
    pub thumbnail_url: Option<String>,
    pub is_mature: bool,
}

impl LiveStream {
    /// A field-for-field copy.
    pub fn duplicate(&self) -> (r: Self)
        ensures
            r == *self,
    {
        LiveStream {
            id: self.id.clone(),
            user_id: self.user_id.clone(),
            user_login: self.user_login.clone(),
            user_name: copy_opt(&self.user_name),
            game_id: copy_opt(&self.game_id),
            game_name: copy_opt(&self.game_name),
            stream_type: self.stream_type.clone(),
            title: copy_opt(&self.title),
            viewer_count: self.viewer_count,
            started_at: self.started_at,
            thumbnail_url: copy_opt(&self.thumbnail_url),
            is_mature: self.is_mature,
        }
    }
}

/// The answer envelope of the platform's list endpoints: `{ "data": [...] }`.
#[derive(Clone, Debug)]
pub struct ResponseList<T> {
    pub data: Vec<T>,
}

impl<T> ResponseList<T> {
    /// An empty list.
    pub fn new() -> (r: Self)
        ensures
            r.data@ == Seq::<T>::empty(),
    {
        ResponseList { data: Vec::new() }
    }
}

/// A copy of a list of broadcasts, element for element.
pub fn copy_streams(v: &Vec<LiveStream>) -> (r: Vec<LiveStream>)
    ensures
        r@ == v@,
{
    let mut out: Vec<LiveStream> = Vec::new();
    let mut i: usize = 0;
    while i < v.len()
        invariant
            i <= v@.len(),
            out@ == v@.subrange(0, i as int),
        decreases v@.len() - i,
    {
        out.push(v[i].duplicate());
        i = i + 1;
    }
    assert(out@ =~= v@);
    out
}

impl ResponseList<LiveStream> {
    /// A copy of the list, element for element.
    pub fn duplicate(&self) -> (r: Self)
        ensures
            r.data@ == self.data@,
    {
        ResponseList { data: copy_streams(&self.data) }
    }
}

} // verus!
