use vstd::prelude::*;
use vstd::string::StringExecFns;

verus! {

/// Which of the fixed icons a notification shows.
#[derive(Clone, Copy, Debug, PartialEq, Eq, Structural)]
pub enum Icon {
    Critical,
    Low,
    Full,
    Charging,
    Discharging,
}

/// What a notification looks like to a contract: title, body, icon.
pub type NoticeView = (Seq<char>, Seq<char>, Icon);

/// A desktop notification to show.
#[derive(Clone, Debug)]
pub struct Notification {
    pub title: String,
    pub body: String,
    pub icon: Icon,
}

impl View for Notification {
    type V = NoticeView;

    open spec fn view(&self) -> NoticeView {
        (self.title@, self.body@, self.icon)
    }
}

/// The character of a decimal digit.
pub open spec fn digit_char(d: nat) -> char {
    if d == 0 { '0' }
    else if d == 1 { '1' }
    else if d == 2 { '2' }
    else if d == 3 { '3' }
    else if d == 4 { '4' }
    else if d == 5 { '5' }
    else if d == 6 { '6' }
    else if d == 7 { '7' }
    else if d == 8 { '8' }
    else { '9' }
}

/// A number written in decimal, without leading zeros.
pub open spec fn decimal(n: nat) -> Seq<char>
    decreases n,
{
    if n < 10 {
        seq![digit_char(n)]
    } else {
        decimal(n / 10).push(digit_char(n % 10))
    }
}

/// The file that shows an icon.
pub open spec fn icon_path_of(icon: Icon) -> Seq<char> {
    match icon {
        Icon::Critical => "/usr/share/icons/critical.svg"@,
        Icon::Low => "/usr/share/icons/low-battery.svg"@,
        Icon::Full => "/usr/share/icons/full-battery.svg"@,
        Icon::Charging => "/usr/share/icons/charging.svg"@,
        Icon::Discharging => "/usr/share/icons/unplugged.svg"@,
    }
}

impl Icon {
    /// The file that shows this icon.
    pub fn path(&self) -> (p: &'static str)
        ensures
            p@ == icon_path_of(*self),
    {
        match self {
            Icon::Critical => "/usr/share/icons/critical.svg",
            Icon::Low => "/usr/share/icons/low-battery.svg",
            Icon::Full => "/usr/share/icons/full-battery.svg",
            Icon::Charging => "/usr/share/icons/charging.svg",
            Icon::Discharging => "/usr/share/icons/unplugged.svg",
        }
    }
}

fn digit_text(d: u32) -> (s: &'static str)
    requires
        d < 10,
    ensures
        s@ == seq![digit_char(d as nat)],
{
    proof {
        reveal_strlit("0");
        reveal_strlit("1");
        reveal_strlit("2");
        reveal_strlit("3");
        reveal_strlit("4");
        reveal_strlit("5");
        reveal_strlit("6");
        reveal_strlit("7");
        reveal_strlit("8");
        reveal_strlit("9");
    }
    if d == 0 { "0" }
    else if d == 1 { "1" }
    else if d == 2 { "2" }
    else if d == 3 { "3" }
    else if d == 4 { "4" }
    else if d == 5 { "5" }
    else if d == 6 { "6" }
    else if d == 7 { "7" }
    else if d == 8 { "8" }
    else { "9" }
}

/// Appends `n` in decimal to `out`.
pub fn push_decimal(out: &mut String, n: u32)
    ensures
        final(out)@ == old(out)@ + decimal(n as nat),
    decreases n,
{
    if n >= 10 {
        push_decimal(out, n / 10);
    }
    out.append(digit_text(n % 10));
    proof {
        if n >= 10 {
            assert(decimal(n as nat) == decimal((n / 10) as nat).push(digit_char((n % 10) as nat)));
        }
    }
}

} // verus!
