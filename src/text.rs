//! The text the contract writes: decimal amounts, the transfer memo and the
//! forward confirmation.
use vstd::prelude::*;

verus! {

/// The character of a decimal digit.
pub open spec fn digit_char(d: nat) -> char {
    (('0' as nat) + d) as char
}

/// The decimal representation of `n`, without leading zeros.
pub open spec fn decimal(n: nat) -> Seq<char>
    decreases n,
{
    if n < 10 {
        seq![digit_char(n)]
    } else {
        decimal(n / 10).push(digit_char(n % 10))
    }
}

/// The memo that names this contract as the receiver of packet callbacks.
pub open spec fn callback_memo(contract_addr: Seq<char>) -> Seq<char> {
    "{\"callback\": \""@ + contract_addr + "\"}"@
}

/// The confirmation of a forward of `amount` of `denom` to `receiver` over
/// `channel`.
pub open spec fn sent_message(amount: nat, denom: Seq<char>, channel: Seq<char>, receiver: Seq<char>) -> Seq<char> {
    "Sent "@ + decimal(amount) + denom + " to "@ + channel + "/"@ + receiver
}

fn digit_str(d: u128) -> (r: &'static str)
    requires
        d < 10,
    ensures
        r@ == seq![digit_char(d as nat)],
{
    proof {
        reveal_strlit("0");
        reveal_strlit("1");
        reveal_strlit("2");
        reveal_strlit("3");
        reveal_strlit("4");
        reveal_strlit("5");
        reveal_strlit("6");
        reveal_strlit("7");
        reveal_strlit("8");
        reveal_strlit("9");
    }
    let r = match d {
        0 => "0",
        1 => "1",
        2 => "2",
        3 => "3",
        4 => "4",
        5 => "5",
        6 => "6",
        7 => "7",
        8 => "8",
        _ => "9",
    };
    assert(r@ =~= seq![digit_char(d as nat)]);
    r
}

/// Writes `n` in decimal.
pub fn decimal_string(n: u128) -> (r: String)
    ensures
        r@ == decimal(n as nat),
    decreases n,
{
    if n < 10 {
        String::from_str(digit_str(n))
    } else {
        let mut r = decimal_string(n / 10);
        r.append(digit_str(n % 10));
        assert(r@ =~= decimal(n as nat));
        r
    }
}

/// Writes the memo that names `contract_addr` as the callback receiver.
pub fn callback_memo_string(contract_addr: &String) -> (r: String)
    ensures
        r@ == callback_memo(contract_addr@),
{
    let mut r = String::from_str("{\"callback\": \"");
    r.append(contract_addr.as_str());
    r.append("\"}");
    r
}

/// Writes the confirmation of a forward.
pub fn sent_message_string(amount: u128, denom: &String, channel: &String, receiver: &String) -> (r: String)
    ensures
        r@ == sent_message(amount as nat, denom@, channel@, receiver@),
{
    let mut r = String::from_str("Sent ");
    let digits = decimal_string(amount);
    r.append(digits.as_str());
    r.append(denom.as_str());
    r.append(" to ");
    r.append(channel.as_str());
    r.append("/");
    r.append(receiver.as_str());
    assert(r@ =~= sent_message(amount as nat, denom@, channel@, receiver@));
    r
}

} // verus!
