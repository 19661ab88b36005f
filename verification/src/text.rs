use vstd::prelude::*;
use vstd::string::StringExecFns;

verus! {

/// The decimal digit character for a value below ten.
pub open spec fn digit_char(d: nat) -> char {
    if d == 0 {
        '0'
    } else if d == 1 {
        '1'
    } else if d == 2 {
        '2'
    } else if d == 3 {
        '3'
    } else if d == 4 {
        '4'
    } else if d == 5 {
        '5'
    } else if d == 6 {
        '6'
    } else if d == 7 {
        '7'
    } else if d == 8 {
        '8'
    } else {
        '9'
    }
}

/// The decimal rendering of a natural number, most significant digit first.
pub open spec fn dec_seq(n: nat) -> Seq<char>
    decreases n,
{
    if n < 10 {
        seq![digit_char(n)]
    } else {
        dec_seq(n / 10).push(digit_char(n % 10))
    }
}

/// The decimal rendering of an integer: a minus sign before the magnitude
/// when it is negative.
pub open spec fn int_seq(n: int) -> Seq<char> {
    if n < 0 {
        seq!['-'] + dec_seq((-n) as nat)
    } else {
        dec_seq(n as nat)
    }
}

/// The one-character string for a decimal digit.
fn digit_str(d: u32) -> (s: &'static str)
    requires
        d < 10,
    ensures
        s@ == seq![digit_char(d as nat)],
{
    proof {
        reveal_strlit("0");
        reveal_strlit("1");
        reveal_strlit("2");
        reveal_strlit("3");
        reveal_strlit("4");
        reveal_strlit("5");
        reveal_strlit("6");
        reveal_strlit("7");
        reveal_strlit("8");
        reveal_strlit("9");
    }
    let s: &'static str = match d {
        0 => "0",
        1 => "1",
        2 => "2",
        3 => "3",
        4 => "4",
        5 => "5",
        6 => "6",
        7 => "7",
        8 => "8",
        _ => "9",
    };
    proof {
        assert(s@ =~= seq![digit_char(d as nat)]);
    }
    s
}

/// Render an unsigned number in decimal.
pub fn u64_to_string(n: u64) -> (s: String)
    ensures
        s@ == dec_seq(n as nat),
    decreases n,
{
    if n < 10 {
        let s = digit_str(n as u32).to_owned();
        s
    } else {
        let mut s = u64_to_string(n / 10);
        s.append(digit_str((n % 10) as u32));
        proof {
            assert(s@ =~= dec_seq(n as nat));
        }
        s
    }
}

/// Render a signed number in decimal.
pub fn i32_to_string(v: i32) -> (s: String)
    ensures
        s@ == int_seq(v as int),
{
    if v >= 0 {
        let s = u64_to_string(v as u64);
        s
    } else {
        let magnitude: u64 = (-(v as i64)) as u64;
        let mut s = "-".to_owned();
        let digits = u64_to_string(magnitude);
        s.append(digits.as_str());
        proof {
            reveal_strlit("-");
            assert(s@ =~= int_seq(v as int));
        }
        s
    }
}

/// The message logged when the player picks an item up.
pub open spec fn pickup_message(name: Seq<char>) -> Seq<char> {
    "You pick up the "@ + name + "."@
}

/// The message logged when the player drinks a healing item.
pub open spec fn drink_message(name: Seq<char>, heal_amount: i32) -> Seq<char> {
    "You drink the "@ + name + ", healing "@ + int_seq(heal_amount as int) + " hp."@
}

/// The message logged, once per affected occupant, when the player uses a
/// damage item.
pub open spec fn damage_message(item: Seq<char>, target: Seq<char>, damage: i32) -> Seq<char> {
    "You use "@ + item + " on "@ + target + ", inflicting "@ + int_seq(damage as int)
        + " damage."@
}

/// The message logged when the player drops an item.
pub open spec fn drop_message(name: Seq<char>) -> Seq<char> {
    "You drop the "@ + name + "."@
}

/// Build the pickup message for an item name.
pub fn build_pickup_message(name: &str) -> (s: String)
    ensures
        s@ == pickup_message(name@),
{
    let mut s = "You pick up the ".to_owned();
    s.append(name);
    s.append(".");
    s
}

/// Build the drink message for an item name and heal amount.
pub fn build_drink_message(name: &str, heal_amount: i32) -> (s: String)
    ensures
        s@ == drink_message(name@, heal_amount),
{
    let mut s = "You drink the ".to_owned();
    s.append(name);
    s.append(", healing ");
    let amount = i32_to_string(heal_amount);
    s.append(amount.as_str());
    s.append(" hp.");
    s
}

/// Build the damage message for an item name, a target name, and an amount.
pub fn build_damage_message(item: &str, target: &str, damage: i32) -> (s: String)
    ensures
        s@ == damage_message(item@, target@, damage),
{
    let mut s = "You use ".to_owned();
    s.append(item);
    s.append(" on ");
    s.append(target);
    s.append(", inflicting ");
    let amount = i32_to_string(damage);
    s.append(amount.as_str());
    s.append(" damage.");
    s
}

/// Build the drop message for an item name.
pub fn build_drop_message(name: &str) -> (s: String)
    ensures
        s@ == drop_message(name@),
{
    let mut s = "You drop the ".to_owned();
    s.append(name);
    s.append(".");
    s
}

} // verus!
