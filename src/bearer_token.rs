use vstd::prelude::*;

verus! {

/// The bearer token credential: the token itself, the OAuth2 client id and secret
/// used to renew it, the renewal interval in seconds, the time of the last renewal
/// and whether a renewal is in flight.
///
/// Times are seconds on a clock that the caller chooses and keeps.
#[derive(Clone, Debug)]
pub struct BearerToken {
    token: Option<String>,
    oauth2: Option<(String, String)>,
    renewal_interval: Option<u64>,
    last_renewal: Option<u64>,
    renewing: bool,
}

/// What a caller about to send a request does about the token.
#[derive(Clone, Copy, Debug, PartialEq, Eq, Structural)]
pub enum RenewalStep {
    /// Nothing is owed or in flight: send with the current token.
    Proceed,
    /// A renewal is in flight: wait for its outcome, then send.
    Wait,
    /// A renewal is owed and none is in flight: try to claim it.
    Renew,
}

/// The state of a credential, as plain values.
pub struct BearerTokenView {
    pub token: Option<Seq<char>>,
    pub oauth2: Option<(Seq<char>, Seq<char>)>,
    pub renewal_interval: Option<u64>,
    pub last_renewal: Option<u64>,
    pub renewing: bool,
}

pub open spec fn opt_text(o: Option<String>) -> Option<Seq<char>> {
    match o {
        Some(s) => Some(s@),
        None => None,
    }
}

impl View for BearerToken {
    type V = BearerTokenView;

    closed spec fn view(&self) -> BearerTokenView {
        BearerTokenView {
            token: opt_text(self.token),
            oauth2: match self.oauth2 {
                Some(p) => Some((p.0@, p.1@)),
                None => None,
            },
            renewal_interval: self.renewal_interval,
            last_renewal: self.last_renewal,
            renewing: self.renewing,
        }
    }
}

impl BearerTokenView {
    /// The credential of a fresh session: nothing set.
    pub open spec fn empty() -> BearerTokenView {
        BearerTokenView {
            token: None,
            oauth2: None,
            renewal_interval: None,
            last_renewal: None,
            renewing: false,
        }
    }

    pub open spec fn with_token(self, t: Seq<char>) -> BearerTokenView {
        BearerTokenView { token: Some(t), ..self }
    }

    pub open spec fn with_oauth2(self, id: Seq<char>, secret: Seq<char>) -> BearerTokenView {
        BearerTokenView { oauth2: Some((id, secret)), ..self }
    }

    pub open spec fn with_renewal_interval(self, secs: u64) -> BearerTokenView {
        BearerTokenView { renewal_interval: Some(secs), ..self }
    }

    /// A renewal is owed at time `now`: an interval and the client credentials are
    /// set, no renewal is in flight, and either none was made yet or more than the
    /// interval has passed since the last one.
    pub open spec fn renewal_due(self, now: u64) -> bool {
        &&& self.renewal_interval is Some
        &&& self.oauth2 is Some
        &&& !self.renewing
        &&& match self.last_renewal {
            None => true,
            Some(last) => now - last > self.renewal_interval->0,
        }
    }

    /// What a caller about to send a request at time `now` does: wait while a
    /// renewal is in flight, renew where one is owed, else go on.
    pub open spec fn renewal_step(self, now: u64) -> RenewalStep {
        if self.renewing {
            RenewalStep::Wait
        } else if self.renewal_due(now) {
            RenewalStep::Renew
        } else {
            RenewalStep::Proceed
        }
    }

    /// The state once a renewal has been claimed.
    pub open spec fn claimed(self) -> BearerTokenView {
        BearerTokenView { renewing: true, ..self }
    }

    /// The state once the renewal in flight has ended: a new token replaces the
    /// old one and restarts the interval; a failed renewal keeps the old token.
    pub open spec fn renewed(self, outcome: Option<Seq<char>>, now: u64) -> BearerTokenView {
        match outcome {
            Some(t) => BearerTokenView {
                token: Some(t),
                last_renewal: Some(now),
                renewing: false,
                ..self
            },
            None => BearerTokenView { renewing: false, ..self },
        }
    }
}

impl BearerToken {
    /// A credential with nothing set.
    pub fn new() -> (r: BearerToken)
        ensures
            r@ == BearerTokenView::empty(),
    {
        BearerToken {
            token: None,
            oauth2: None,
            renewal_interval: None,
            last_renewal: None,
            renewing: false,
        }
    }

    /// The current token, if any.
    pub fn get(&self) -> (r: Option<String>)
        ensures
            opt_text(r) == self@.token,
    {
        self.token.clone()
    }

    /// Sets the access token.
    pub fn set_access_token(&mut self, token: &str)
        ensures
            final(self)@ == old(self)@.with_token(token@),
    {
        self.token = Some(String::from_str(token));
    }

    /// Sets the OAuth2 client id and client secret used for renewals.
    pub fn set_oauth2_info(&mut self, client_id: &str, client_secret: &str)
        ensures
            final(self)@ == old(self)@.with_oauth2(client_id@, client_secret@),
    {
        self.oauth2 = Some((String::from_str(client_id), String::from_str(client_secret)));
    }

    /// Sets the interval between renewals, in seconds.
    pub fn set_renewal_interval(&mut self, secs: u64)
        ensures
            final(self)@ == old(self)@.with_renewal_interval(secs),
    {
        self.renewal_interval = Some(secs);
    }

    /// The renewal interval in seconds, if one is set.
    pub fn renewal_interval(&self) -> (r: Option<u64>)
        ensures
            r == self@.renewal_interval,
    {
        self.renewal_interval
    }

    /// Whether a renewal is in flight.
    pub fn is_renewing(&self) -> (r: bool)
        ensures
            r == self@.renewing,
    {
        self.renewing
    }

    /// Whether a renewal is owed at time `now`.
    pub fn renewal_due(&self, now: u64) -> (r: bool)
        ensures
            r == self@.renewal_due(now),
    {
        match (&self.renewal_interval, &self.oauth2) {
            (Some(interval), Some(_)) => {
                if self.renewing {
                    false
                } else {
                    match self.last_renewal {
                        None => true,
                        Some(last) => now >= last && now - last > *interval,
                    }
                }
            },
            _ => false,
        }
    }

    /// What a caller about to send a request at time `now` does.
    pub fn renewal_step(&self, now: u64) -> (r: RenewalStep)
        ensures
            r == self@.renewal_step(now),
    {
        if self.renewing {
            RenewalStep::Wait
        } else if self.renewal_due(now) {
            RenewalStep::Renew
        } else {
            RenewalStep::Proceed
        }
    }

    /// Claims the renewal owed at time `now`, if one is owed. The caller that gets
    /// the client id and secret performs the token exchange and must report its
    /// outcome with `finish_renewal`; until then no other renewal is handed out.
    pub fn begin_renewal(&mut self, now: u64) -> (r: Option<(String, String)>)
        ensures
            old(self)@.renewal_due(now) ==> {
                &&& final(self)@ == old(self)@.claimed()
                &&& (r matches Some(p) && old(self)@.oauth2 == Some((p.0@, p.1@)))
            },
            !old(self)@.renewal_due(now) ==> final(self)@ == old(self)@ && r is None,
    {
        if self.renewal_due(now) {
            self.renewing = true;
            match &self.oauth2 {
                Some((id, secret)) => Some((id.clone(), secret.clone())),
                None => None,
            }
        } else {
            None
        }
    }

    /// Ends the renewal in flight with its outcome: the new token, or `None` when
    /// the exchange failed, in which case the old token stays.
    pub fn finish_renewal(&mut self, outcome: Option<String>, now: u64)
        ensures
            final(self)@ == old(self)@.renewed(opt_text(outcome), now),
    {
        self.renewing = false;
        if let Some(t) = outcome {
            self.token = Some(t);
            self.last_renewal = Some(now);
        }
    }
}

impl Default for BearerToken {
    fn default() -> (r: BearerToken)
        ensures
            r@ == BearerTokenView::empty(),
    {
        BearerToken::new()
    }
}

/// The token held is the one set last: setting the client credentials or the
/// renewal interval afterwards leaves it as it is.
pub proof fn lemma_latest_token_wins(
    c: BearerTokenView,
    first: Seq<char>,
    second: Seq<char>,
    id: Seq<char>,
    secret: Seq<char>,
    secs: u64,
)
    ensures
        c.with_token(first).with_token(second).token == Some(second),
        c.with_token(second).with_oauth2(id, secret).token == Some(second),
        c.with_token(second).with_renewal_interval(secs).token == Some(second),
{
}

/// At most one renewal is in flight: once a renewal has been claimed, no caller can
/// claim another, at any time, until it has been finished, and every caller is
/// told to wait for it. A failed renewal keeps the old token.
pub proof fn lemma_single_renewal_in_flight(c: BearerTokenView, now: u64, later: u64)
    requires
        c.renewal_due(now),
    ensures
        c.renewal_step(now) == RenewalStep::Renew,
        !c.claimed().renewal_due(later),
        c.claimed().renewal_step(later) == RenewalStep::Wait,
        c.claimed().renewed(None, later).token == c.token,
        !c.claimed().renewed(None, later).renewing,
{
}

} // verus!
