//! The user's settings: saved keys, the tunnel mode and what closing the
//! window does.
use vstd::prelude::*;

use chrono::Datelike;

use crate::display::{humanize_bytes, humanize_bytes_spec};
use crate::text::{decimal, push_decimal, push_str};

verus! {

/// A WireGuard key saved by the user, with what the API last reported
/// about it.
#[derive(Clone, Debug)]
pub struct Key {
    /// The name the API gives the key ("Invalid Key" when it refused it).
    pub id: Option<String>,
    /// The tunnel address assigned to the key.
    pub ip: Option<String>,
    /// The base64 private key itself.
    pub priv_key: String,
    /// Whether the key's subscription is active.
    pub is_active: Option<bool>,
    /// The subscription's end date, as a day number counted like chrono's
    /// `num_days_from_ce` (0001-01-01 is day 1).
    pub expiry: Option<i32>,
    /// Bytes received through the key.
    pub rx_bytes: Option<u64>,
    /// Bytes sent through the key.
    pub tx_bytes: Option<u64>,
}

/// The calendar text ("YYYY-MM-DD") of a day number, when chrono can
/// represent that day.
pub uninterp spec fn date_text_of(day: i32) -> Option<Seq<char>>;

/// chrono's `NaiveDate::from_num_days_from_ce_opt` followed by its
/// `Display`.  Trusted: the result is the named text.
#[verifier::external_body]
fn date_text(day: i32) -> (res: Option<String>)
    ensures
        res matches Some(t) ==> date_text_of(day) == Some(t@),
        res is None ==> date_text_of(day) is None,
{
    chrono::NaiveDate::from_num_days_from_ce_opt(day).map(|d| d.to_string())
}

/// The system clock (`SystemTime::now`) as whole seconds since 1970-01-01
/// UTC; None when it reads before 1970 or beyond `i64`.  Nothing more is
/// promised: the value depends on the clock.
#[verifier::external_body]
fn clock_seconds() -> (res: Option<i64>)
    ensures
        res matches Some(s) ==> s >= 0,
{
    let since = std::time::SystemTime::now().duration_since(std::time::UNIX_EPOCH).ok()?;
    i64::try_from(since.as_secs()).ok()
}

/// The day number (as `num_days_from_ce`) of the local calendar day that
/// holds the instant `secs` seconds after 1970, in the machine's time
/// zone: chrono's `DateTime::<Utc>::from_timestamp(secs, 0)`, then
/// `with_timezone(&Local)` and `date_naive()`; None beyond the instants
/// chrono can hold.  Nothing is promised of the day: it depends on the time
/// zone.  chrono's local-offset lookup panics only when the zone's rules
/// cannot place an instant, which they can for every instant from 1970 on
/// that chrono holds.
/// The day is that of the UTC date, give or take one: chrono counts the
/// UTC date as `secs` divided by 86400 plus 719163 (its `UNIX_EPOCH_DAY`),
/// and a local offset is less than a day either way (`FixedOffset` keeps it
/// strictly between -86400 and 86400 seconds).
#[verifier::external_body]
fn local_day(secs: i64) -> (day: Option<i32>)
    requires
        secs >= 0,
    ensures
        day matches Some(d) ==> utc_day_number(secs as int) - 1 <= d <= utc_day_number(secs as int) + 1,
{
    let utc = chrono::DateTime::<chrono::Utc>::from_timestamp(secs, 0)?;
    Some(utc.with_timezone(&chrono::Local).date_naive().num_days_from_ce())
}

/// The day number (as `num_days_from_ce`, 0001-01-01 being day 1) of the
/// UTC date `secs` seconds after 1970-01-01.
pub open spec fn utc_day_number(secs: int) -> int {
    secs / 86400 + 719163
}

/// Whether `day` is the local calendar day of some clock reading from 1970
/// on: the UTC day of that reading, give or take one for the time zone.
pub open spec fn is_local_day_of_clock(day: int) -> bool {
    exists|secs: int| secs >= 0 && #[trigger] utc_day_number(secs) - 1 <= day <= utc_day_number(secs) + 1
}

/// Today's date in the local time zone as a day number, or None when the
/// clock reads before 1970 or beyond what chrono holds.
fn local_today() -> (day: Option<i32>)
    ensures
        day matches Some(d) ==> is_local_day_of_clock(d as int),
{
    match clock_seconds() {
        Some(s) => local_day(s),
        None => None,
    }
}

/// The subscription column of the key table.
pub open spec fn subscription_spec(is_active: Option<bool>) -> Seq<char> {
    match is_active {
        Some(true) => "Active"@,
        Some(false) => "Inactive"@,
        None => Seq::<char>::empty(),
    }
}

/// How far the end date `expiry` is from `today`, as shown in the key
/// table.  Both are whole days, so a date that is today is "0 minutes left".
pub open spec fn expiry_text_spec(expiry: Option<i32>, today: i32) -> Seq<char> {
    match expiry {
        None => Seq::<char>::empty(),
        Some(date) => {
            let days = date - today;
            if days == 0 {
                "0 minutes left"@
            } else if days > 0 {
                decimal(days as nat) + " days left"@
            } else {
                decimal((-days) as nat) + " days ago"@
            }
        },
    }
}

/// An optional text, or the empty text.
pub open spec fn text_or_empty(t: Option<String>) -> Seq<char> {
    match t {
        Some(s) => s@,
        None => Seq::<char>::empty(),
    }
}

/// A byte count as shown in the key details, or the empty text.
pub open spec fn bytes_or_empty(b: Option<u64>) -> Seq<char> {
    match b {
        Some(n) => humanize_bytes_spec(n),
        None => Seq::<char>::empty(),
    }
}

/// The end date as shown in the key details.
pub open spec fn end_date_spec(expiry: Option<i32>) -> Seq<char> {
    match expiry {
        Some(d) => match date_text_of(d) {
            Some(t) => t,
            None => Seq::<char>::empty(),
        },
        None => Seq::<char>::empty(),
    }
}

/// A string's contents, or the empty text.
fn clone_or_empty(t: &Option<String>) -> (res: String)
    ensures
        res@ == text_or_empty(*t),
{
    match t {
        Some(s) => s.clone(),
        None => String::new(),
    }
}

/// A byte count in human units, or the empty text.
fn humanize_or_empty(b: Option<u64>) -> (res: String)
    ensures
        res@ == bytes_or_empty(b),
{
    match b {
        Some(n) => humanize_bytes(n),
        None => String::new(),
    }
}

impl Key {
    /// A key the user just added: only the private key is known.
    pub fn new(priv_key: String) -> (res: Key)
        ensures
            res.priv_key@ == priv_key@,
            res.id is None,
            res.ip is None,
            res.is_active is None,
            res.expiry is None,
            res.rx_bytes is None,
            res.tx_bytes is None,
    {
        Key {
            id: None,
            ip: None,
            priv_key: priv_key,
            is_active: None,
            expiry: None,
            rx_bytes: None,
            tx_bytes: None,
        }
    }

    /// The name column of the key table: the key's name, or empty.
    pub fn id_text(&self) -> (res: String)
        ensures
            res@ == text_or_empty(self.id),
    {
        clone_or_empty(&self.id)
    }

    /// The subscription column: "Active", "Inactive", or empty when unknown.
    pub fn get_subscription(&self) -> (res: String)
        ensures
            res@ == subscription_spec(self.is_active),
    {
        match self.is_active {
            Some(true) => "Active".to_owned(),
            Some(false) => "Inactive".to_owned(),
            None => String::new(),
        }
    }

    /// The end-date column for the day `today`: days left, days ago, or
    /// empty when the end date is unknown.
    pub fn expiry_text_on(&self, today: i32) -> (res: String)
        ensures
            res@ == expiry_text_spec(self.expiry, today),
    {
        match self.expiry {
            None => String::new(),
            Some(date) => {
                let days: i64 = date as i64 - today as i64;
                let mut s = String::new();
                if days == 0 {
                    push_str(&mut s, "0 minutes left");
                } else if days > 0 {
                    push_decimal(&mut s, days as u128);
                    push_str(&mut s, " days left");
                } else {
                    push_decimal(&mut s, (-days) as u128);
                    push_str(&mut s, " days ago");
                }
                assert(s@ =~= expiry_text_spec(self.expiry, today));
                s
            },
        }
    }

    /// The end-date column for the current local day; empty when the end
    /// date is unknown or the clock cannot tell today's date.
    pub fn get_expiry(&self) -> (res: String)
        ensures
            res@ == Seq::<char>::empty() || exists|today: i32| is_local_day_of_clock(today as int)
                && res@ == expiry_text_spec(self.expiry, today),
            self.expiry is None ==> res@ == Seq::<char>::empty(),
    {
        match local_today() {
            Some(today) => self.expiry_text_on(today),
            None => String::new(),
        }
    }

    /// The end date as a calendar date ("YYYY-MM-DD"), or empty.
    pub fn end_date_text(&self) -> (res: String)
        ensures
            res@ == end_date_spec(self.expiry),
    {
        match self.expiry {
            Some(d) => match date_text(d) {
                Some(t) => t,
                None => String::new(),
            },
            None => String::new(),
        }
    }

    /// The rows of the key details dialog, in order: name, subscription,
    /// end date, address, download and upload usage.
    pub fn info_rows(&self) -> (rows: Vec<(&'static str, String)>)
        ensures
            rows@.len() == 6,
            rows@[0].0@ == "Key Name"@ && rows@[0].1@ == text_or_empty(self.id),
            rows@[1].0@ == "Subscription"@ && rows@[1].1@ == subscription_spec(self.is_active),
            rows@[2].0@ == "End Date"@ && rows@[2].1@ == end_date_spec(self.expiry),
            rows@[3].0@ == "IP Address"@ && rows@[3].1@ == text_or_empty(self.ip),
            rows@[4].0@ == "Download Usage"@ && rows@[4].1@ == bytes_or_empty(self.rx_bytes),
            rows@[5].0@ == "Upload Usage"@ && rows@[5].1@ == bytes_or_empty(self.tx_bytes),
    {
        let mut rows: Vec<(&'static str, String)> = Vec::new();
        rows.push(("Key Name", clone_or_empty(&self.id)));
        rows.push(("Subscription", self.get_subscription()));
        rows.push(("End Date", self.end_date_text()));
        rows.push(("IP Address", clone_or_empty(&self.ip)));
        rows.push(("Download Usage", humanize_or_empty(self.rx_bytes)));
        rows.push(("Upload Usage", humanize_or_empty(self.tx_bytes)));
        rows
    }
}

impl Key {
    /// A copy of the key.
    pub fn clone_key(&self) -> (res: Key)
        ensures
            res == *self,
    {
        Key {
            id: match &self.id {
                Some(s) => Some(s.clone()),
                None => None,
            },
            ip: match &self.ip {
                Some(s) => Some(s.clone()),
                None => None,
            },
            priv_key: self.priv_key.clone(),
            is_active: self.is_active,
            expiry: self.expiry,
            rx_bytes: self.rx_bytes,
            tx_bytes: self.tx_bytes,
        }
    }
}

/// How the tunnel reaches the server.
#[derive(Clone, Copy, PartialEq, Eq, Structural, Debug)]
pub enum TunnelMode {
    Auto,
    TCP,
    UDP,
}

impl TunnelMode {
    pub open spec fn label_spec(self) -> Seq<char> {
        match self {
            TunnelMode::Auto => "Auto"@,
            TunnelMode::TCP => "TCP"@,
            TunnelMode::UDP => "UDP"@,
        }
    }

    /// The name shown for the mode in the mode selector.
    pub fn label(&self) -> (res: &'static str)
        ensures
            res@ == self.label_spec(),
    {
        match self {
            TunnelMode::Auto => "Auto",
            TunnelMode::TCP => "TCP",
            TunnelMode::UDP => "UDP",
        }
    }
}

/// What closing the main window does.
#[derive(Clone, Copy, PartialEq, Eq, Structural, Debug)]
pub enum CloseAction {
    Ask,
    MinimizeToTray,
    Exit,
}

impl CloseAction {
    pub open spec fn label_spec(self) -> Seq<char> {
        match self {
            CloseAction::Ask => "Ask every time"@,
            CloseAction::MinimizeToTray => "Minimize to Tray"@,
            CloseAction::Exit => "Exit"@,
        }
    }

    /// The name shown for the choice in the settings page.
    pub fn label(&self) -> (res: &'static str)
        ensures
            res@ == self.label_spec(),
    {
        match self {
            CloseAction::Ask => "Ask every time",
            CloseAction::MinimizeToTray => "Minimize to Tray",
            CloseAction::Exit => "Exit",
        }
    }
}

} // verus!
