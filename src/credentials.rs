use vstd::prelude::*;

verus! {

/// What the credential store keeps of one account.
pub struct CredsData {
    /// Also sent as the device header to the gateway.
    pub device_id: String,
    pub email: String,
    pub refresh: String,
    pub token: String,
}

/// The mathematical value of a `CredsData`.
pub ghost struct CredsView {
    pub device_id: Seq<char>,
    pub email: Seq<char>,
    pub refresh: Seq<char>,
    pub token: Seq<char>,
}

impl View for CredsData {
    type V = CredsView;

    open spec fn view(&self) -> CredsView {
        CredsView {
            device_id: self.device_id@,
            email: self.email@,
            refresh: self.refresh@,
            token: self.token@,
        }
    }
}

impl CredsData {
    pub fn copy(&self) -> (r: CredsData)
        ensures
            r@ == self@,
    {
        CredsData {
            device_id: self.device_id.clone(),
            email: self.email.clone(),
            refresh: self.refresh.clone(),
            token: self.token.clone(),
        }
    }
}

/// The last known identity and tokens of the account, absent until the first
/// successful primary login.
pub struct Credentials {
    data: Option<CredsData>,
}

impl View for Credentials {
    type V = Option<CredsView>;

    closed spec fn view(&self) -> Option<CredsView> {
        match self.data {
            Some(d) => Some(d@),
            None => None,
        }
    }
}

impl Credentials {
    /// An empty store.
    pub fn empty() -> (r: Credentials)
        ensures
            r@ is None,
    {
        Credentials { data: None }
    }

    /// A store holding what was loaded.
    pub fn from_data(data: Option<CredsData>) -> (r: Credentials)
        ensures
            r@ == (match data {
                Some(d) => Some(d@),
                None => None::<CredsView>,
            }),
    {
        Credentials { data }
    }

    /// A copy of what the store holds, for writing it out.
    pub fn data(&self) -> (r: Option<CredsData>)
        ensures
            r is Some <==> self@ is Some,
            r is Some ==> r->0@ == self@->0,
    {
        match &self.data {
            Some(d) => Some(d.copy()),
            None => None,
        }
    }

    pub fn device_id(&self) -> (r: Option<String>)
        ensures
            r is Some <==> self@ is Some,
            r is Some ==> r->0@ == self@->0.device_id,
    {
        match &self.data {
            Some(d) => Some(d.device_id.clone()),
            None => None,
        }
    }

    pub fn email(&self) -> (r: Option<String>)
        ensures
            r is Some <==> self@ is Some,
            r is Some ==> r->0@ == self@->0.email,
    {
        match &self.data {
            Some(d) => Some(d.email.clone()),
            None => None,
        }
    }

    pub fn token(&self) -> (r: Option<String>)
        ensures
            r is Some <==> self@ is Some,
            r is Some ==> r->0@ == self@->0.token,
    {
        match &self.data {
            Some(d) => Some(d.token.clone()),
            None => None,
        }
    }

    pub fn refresh(&self) -> (r: Option<String>)
        ensures
            r is Some <==> self@ is Some,
            r is Some ==> r->0@ == self@->0.refresh,
    {
        match &self.data {
            Some(d) => Some(d.refresh.clone()),
            None => None,
        }
    }

    /// Replaces what the store holds, wholesale.
    pub fn set_credentials(&mut self, device_id: String, email: String, token: String, refresh: String)
        ensures
            final(self)@ == Some(
                CredsView { device_id: device_id@, email: email@, refresh: refresh@, token: token@ },
            ),
    {
        let creds_data = CredsData { device_id, email, refresh, token };
        self.data = Some(creds_data);
    }
}

} // verus!
