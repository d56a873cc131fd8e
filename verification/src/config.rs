//! Configuration data for the service: where it listens, how long its
//! tokens live, and how it reaches its relational store. The connection
//! string for the store is assembled here, character for character.
use vstd::prelude::*;
use vstd::string::*;

verus! {

/// The decimal digit character for one digit value.
pub open spec fn dec_digit(d: nat) -> char {
    if d == 0 {
        '0'
    } else if d == 1 {
        '1'
    } else if d == 2 {
        '2'
    } else if d == 3 {
        '3'
    } else if d == 4 {
        '4'
    } else if d == 5 {
        '5'
    } else if d == 6 {
        '6'
    } else if d == 7 {
        '7'
    } else if d == 8 {
        '8'
    } else {
        '9'
    }
}

/// The decimal rendering of a number: its digits, most significant first,
/// with no leading zero except on the number zero itself.
pub open spec fn dec_rep(n: nat) -> Seq<char>
    decreases n,
{
    if n < 10 {
        seq![dec_digit(n)]
    } else {
        dec_rep(n / 10) + seq![dec_digit(n % 10)]
    }
}

/// The dotted-quad rendering of an IPv4 address.
pub open spec fn ipv4_rep(a: Seq<u8>) -> Seq<char> {
    dec_rep(a[0] as nat) + "."@ + dec_rep(a[1] as nat) + "."@ + dec_rep(a[2] as nat) + "."@
        + dec_rep(a[3] as nat)
}

/// Where the service listens and how long its tokens live, in seconds.
pub struct App {
    pub config_root: String,
    pub host: [u8; 4],
    pub port: u16,
    pub token_lifespan: i64,
}

/// How the service reaches its relational store.
pub struct Database {
    pub host: [u8; 4],
    pub port: u16,
    pub name: String,
    pub user: String,
    pub password: String,
}

/// The whole configuration.
pub struct Config {
    pub app: App,
    pub database: Database,
}

/// The PostgreSQL connection string a database section denotes.
pub open spec fn connection_rep(db: Database) -> Seq<char> {
    "postgres://"@ + db.user@ + ":"@ + db.password@ + "@"@ + ipv4_rep(db.host@) + ":"@ + dec_rep(
        db.port as nat,
    ) + "/"@ + db.name@
}

/// The one-character string for one decimal digit.
fn digit_str(d: u64) -> (r: &'static str)
    requires
        d < 10,
    ensures
        r@ == seq![dec_digit(d as nat)],
{
    let r: &'static str = if d == 0 {
        "0"
    } else if d == 1 {
        "1"
    } else if d == 2 {
        "2"
    } else if d == 3 {
        "3"
    } else if d == 4 {
        "4"
    } else if d == 5 {
        "5"
    } else if d == 6 {
        "6"
    } else if d == 7 {
        "7"
    } else if d == 8 {
        "8"
    } else {
        "9"
    };
    proof {
        reveal_strlit("0");
        reveal_strlit("1");
        reveal_strlit("2");
        reveal_strlit("3");
        reveal_strlit("4");
        reveal_strlit("5");
        reveal_strlit("6");
        reveal_strlit("7");
        reveal_strlit("8");
        reveal_strlit("9");
        assert(r@ =~= seq![dec_digit(d as nat)]);
    }
    r
}

/// Renders a number in decimal.
pub fn to_decimal(n: u64) -> (r: String)
    ensures
        r@ == dec_rep(n as nat),
    decreases n,
{
    if n < 10 {
        digit_str(n).to_owned()
    } else {
        let mut s = to_decimal(n / 10);
        s.append(digit_str(n % 10));
        s
    }
}

/// Renders an IPv4 address as its dotted quad.
pub fn to_string(array: &[u8; 4]) -> (r: String)
    ensures
        r@ == ipv4_rep(array@),
{
    let mut s = to_decimal(array[0] as u64);
    s.append(".");
    s.append(to_decimal(array[1] as u64).as_str());
    s.append(".");
    s.append(to_decimal(array[2] as u64).as_str());
    s.append(".");
    s.append(to_decimal(array[3] as u64).as_str());
    proof {
        assert(s@ =~= ipv4_rep(array@));
    }
    s
}

impl Database {
    /// The connection string for this database section, in PostgreSQL URL
    /// form: scheme, credentials, dotted-quad host, port and database name.
    pub fn connection_string(&self) -> (r: String)
        ensures
            r@ == connection_rep(*self),
    {
        let mut s = String::new();
        s.append("postgres://");
        s.append(self.user.as_str());
        s.append(":");
        s.append(self.password.as_str());
        s.append("@");
        s.append(to_string(&self.host).as_str());
        s.append(":");
        s.append(to_decimal(self.port as u64).as_str());
        s.append("/");
        s.append(self.name.as_str());
        proof {
            assert(s@ =~= connection_rep(*self));
        }
        s
    }
}

} // verus!
