use vstd::prelude::*;
use vstd::string::*;

use crate::json::{status_model, status_payload, Json, JsonModel};
use crate::text::{all_digits, digits_value, parse_unsigned, unsigned_digits, unsigned_of};

verus! {

pub const DEFAULT_PORT: u64 = 3306;
pub const DEFAULT_TIMEOUT_SECS: u64 = 10;
pub const DEFAULT_MIN_SIZE: u64 = 1;
pub const DEFAULT_MAX_SIZE: u64 = 50;

/// The number that a text argument denotes, or the fallback where it denotes
/// none up to `limit`.
pub open spec fn number_or(text: Seq<char>, limit: nat, fallback: nat) -> nat {
    match unsigned_of(text, limit) {
        Some(v) => v,
        None => fallback,
    }
}

/// Everything needed to open a pool of connections.
#[derive(Debug, PartialEq)]
pub struct ConnectConfig {
    pub host: String,
    pub port: u16,
    pub user: String,
    pub password: String,
    pub database: String,
    /// Read and write timeout of each connection, in seconds.
    pub timeout_secs: u64,
    pub min_size: usize,
    pub max_size: usize,
}

/// The numeric settings that the text arguments of a connect give:
/// port, timeout in seconds, least and greatest pool size.
pub open spec fn settings_of(
    port: Seq<char>,
    timeout: Seq<char>,
    min_size: Seq<char>,
    max_size: Seq<char>,
) -> (nat, nat, nat, nat) {
    (
        number_or(port, u16::MAX as nat, DEFAULT_PORT as nat),
        number_or(timeout, u64::MAX as nat, DEFAULT_TIMEOUT_SECS as nat),
        number_or(min_size, usize::MAX as nat, DEFAULT_MIN_SIZE as nat),
        number_or(max_size, usize::MAX as nat, DEFAULT_MAX_SIZE as nat),
    )
}

fn number_arg(text: &str, limit: u64, fallback: u64) -> (r: u64)
    requires
        fallback <= limit,
    ensures
        r as nat == number_or(text@, limit as nat, fallback as nat),
        r <= limit,
{
    match parse_unsigned(text, limit) {
        Some(v) => v,
        None => fallback,
    }
}

impl ConnectConfig {
    /// Builds the settings from the text arguments of a connect; a numeric
    /// argument that is no number in range falls back to its default.
    pub fn from_args(
        host: &str,
        port: &str,
        user: &str,
        password: &str,
        database: &str,
        timeout: &str,
        min_size: &str,
        max_size: &str,
    ) -> (r: ConnectConfig)
        ensures
            r.host@ == host@,
            r.user@ == user@,
            r.password@ == password@,
            r.database@ == database@,
            (r.port as nat, r.timeout_secs as nat, r.min_size as nat, r.max_size as nat)
                == settings_of(port@, timeout@, min_size@, max_size@),
    {
        let p = number_arg(port, 65535, DEFAULT_PORT);
        let t = number_arg(timeout, u64::MAX, DEFAULT_TIMEOUT_SECS);
        let lo = number_arg(min_size, usize::MAX as u64, DEFAULT_MIN_SIZE);
        let hi = number_arg(max_size, usize::MAX as u64, DEFAULT_MAX_SIZE);
        ConnectConfig {
            host: String::from_str(host),
            port: p as u16,
            user: String::from_str(user),
            password: String::from_str(password),
            database: String::from_str(database),
            timeout_secs: t,
            min_size: lo as usize,
            max_size: hi as usize,
        }
    }
}

/// Defaults: a port argument that is no number gives the same settings as
/// the port `3306`.
pub proof fn lemma_default_port(
    port: Seq<char>,
    timeout: Seq<char>,
    min_size: Seq<char>,
    max_size: Seq<char>,
)
    requires
        unsigned_of(port, u16::MAX as nat) is None,
    ensures
        settings_of(port, timeout, min_size, max_size) == settings_of(
            "3306"@,
            timeout,
            min_size,
            max_size,
        ),
{
    reveal_strlit("3306");
    let s = "3306"@;
    assert(unsigned_digits(s) == s);
    assert(all_digits(s));
    assert(s.drop_last() =~= seq!['3', '3', '0']);
    assert(s.drop_last().drop_last() =~= seq!['3', '3']);
    assert(s.drop_last().drop_last().drop_last() =~= seq!['3']);
    assert(seq!['3'].drop_last() =~= Seq::<char>::empty());
    assert(('3' as u32) == 51);
    assert(('0' as u32) == 48);
    assert(('6' as u32) == 54);
    assert(digits_value(Seq::<char>::empty()) == 0);
    assert(seq!['3'].last() == '3');
    assert(digits_value(seq!['3']) == 3);
    assert(seq!['3', '3'].last() == '3');
    assert(seq!['3', '3'].drop_last() =~= seq!['3']);
    assert(seq!['3', '3', '0'].drop_last() =~= seq!['3', '3']);
    assert(seq!['3', '3', '0'].last() == '0');
    assert(s.last() == '6');
    assert(digits_value(seq!['3', '3']) == 33);
    assert(digits_value(seq!['3', '3', '0']) == 330);
    assert(digits_value(s) == 3306);
}

/// The one slot that holds the current pool, if any. A new pool replaces the
/// old one; connections already taken from the old one stay usable.
pub struct PoolSlot<P> {
    pool: Option<P>,
}

/// The first step of a query: the pool to take a connection from, or the
/// `offline` status where there is none.
pub open spec fn checkout_model<P>(slot: Option<P>) -> Result<P, JsonModel> {
    match slot {
        Some(p) => Ok(p),
        None => Err(status_model("offline"@)),
    }
}

impl<P> View for PoolSlot<P> {
    type V = Option<P>;

    closed spec fn view(&self) -> Option<P> {
        self.pool
    }
}

impl<P> PoolSlot<P> {
    /// An empty slot: not connected.
    pub fn new() -> (r: PoolSlot<P>)
        ensures
            r@ is None,
    {
        PoolSlot { pool: None }
    }

    /// Puts a newly built pool in the slot, in place of any other.
    pub fn connect(&mut self, pool: P) -> (r: Json)
        ensures
            final(self)@ == Some(pool),
            r@ == status_model("ok"@),
    {
        self.pool = Some(pool);
        status_payload("ok")
    }

    /// Empties the slot; reports `offline` where it was empty already.
    pub fn disconnect(&mut self) -> (r: Json)
        ensures
            final(self)@ is None,
            r@ == status_model(
                if old(self)@ is Some {
                    "success"@
                } else {
                    "offline"@
                },
            ),
    {
        match self.pool.take() {
            Some(_) => status_payload("success"),
            None => status_payload("offline"),
        }
    }

    /// Reports whether a pool is in the slot.
    pub fn is_connected(&self) -> (r: Json)
        ensures
            r@ == status_model(
                if self@ is Some {
                    "online"@
                } else {
                    "offline"@
                },
            ),
    {
        match &self.pool {
            Some(_) => status_payload("online"),
            None => status_payload("offline"),
        }
    }

    /// The pool that a query takes its connection from, or the `offline`
    /// status to return at once.
    pub fn checkout(&self) -> (r: Result<&P, Json>)
        ensures
            match checkout_model(self@) {
                Ok(p) => r matches Ok(q) && *q == p,
                Err(e) => r matches Err(j) && j@ == e,
            },
    {
        match &self.pool {
            Some(p) => Ok(p),
            None => Err(status_payload("offline")),
        }
    }
}

/// Before any connect, and after a disconnect, a query reports the status
/// `offline`: a normal outcome, not an error payload.
pub proof fn lemma_offline_without_pool<P>(message: Seq<char>)
    ensures
        checkout_model::<P>(None) == Err::<P, JsonModel>(status_model("offline"@)),
        status_model("offline"@) != crate::json::error_model(message),
{
    reveal_strlit("offline");
    reveal_strlit("err");
    assert(status_model("offline"@)->Object_0.len() != crate::json::error_model(message)->Object_0.len());
}

} // verus!
