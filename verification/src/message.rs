//! The notification a cycle delivers: a fixed wire shape around a body text
//! that interpolates the fetched word (or the fallback text when the fetch
//! failed) and the interval in days.

use vstd::prelude::*;
use vstd::string::*;

verus! {

/// The fields of one outbound webhook notification.
pub struct WebhookMessage {
    pub content: String,
    pub title: String,
    pub description: String,
    pub color: u64,
    pub username: String,
    pub avatar_url: String,
}

pub open spec fn digit_char(d: int) -> char {
    if d == 0 {
        '0'
    } else if d == 1 {
        '1'
    } else if d == 2 {
        '2'
    } else if d == 3 {
        '3'
    } else if d == 4 {
        '4'
    } else if d == 5 {
        '5'
    } else if d == 6 {
        '6'
    } else if d == 7 {
        '7'
    } else if d == 8 {
        '8'
    } else {
        '9'
    }
}

/// The decimal digits of `n`, most significant first, no leading zero
/// except for `n == 0` itself.
pub open spec fn dec_digits(n: int) -> Seq<char>
    decreases n,
{
    if n < 10 {
        seq![digit_char(n)]
    } else {
        dec_digits(n / 10) + seq![digit_char(n % 10)]
    }
}

fn digit_str(d: u64) -> (s: &'static str)
    requires
        d < 10,
    ensures
        s@ == seq![digit_char(d as int)],
{
    if d == 0 {
        proof {
            reveal_strlit("0");
            assert("0"@ =~= seq!['0']);
        }
        "0"
    } else if d == 1 {
        proof {
            reveal_strlit("1");
            assert("1"@ =~= seq!['1']);
        }
        "1"
    } else if d == 2 {
        proof {
            reveal_strlit("2");
            assert("2"@ =~= seq!['2']);
        }
        "2"
    } else if d == 3 {
        proof {
            reveal_strlit("3");
            assert("3"@ =~= seq!['3']);
        }
        "3"
    } else if d == 4 {
        proof {
            reveal_strlit("4");
            assert("4"@ =~= seq!['4']);
        }
        "4"
    } else if d == 5 {
        proof {
            reveal_strlit("5");
            assert("5"@ =~= seq!['5']);
        }
        "5"
    } else if d == 6 {
        proof {
            reveal_strlit("6");
            assert("6"@ =~= seq!['6']);
        }
        "6"
    } else if d == 7 {
        proof {
            reveal_strlit("7");
            assert("7"@ =~= seq!['7']);
        }
        "7"
    } else if d == 8 {
        proof {
            reveal_strlit("8");
            assert("8"@ =~= seq!['8']);
        }
        "8"
    } else {
        proof {
            reveal_strlit("9");
            assert("9"@ =~= seq!['9']);
        }
        "9"
    }
}

/// Renders `n` in decimal.
pub fn u64_to_decimal(n: u64) -> (s: String)
    ensures
        s@ == dec_digits(n as int),
    decreases n,
{
    if n < 10 {
        digit_str(n).to_owned()
    } else {
        let mut s = u64_to_decimal(n / 10);
        s.append(digit_str(n % 10));
        s
    }
}

/// The body text sent when the fetch of a timer-triggered cycle fails.
pub open spec fn fallback_text_spec() -> Seq<char> {
    "There has been an error with getting todays' random prompt."@
}

pub fn fallback_text() -> (s: &'static str)
    ensures
        s@ == fallback_text_spec(),
{
    "There has been an error with getting todays' random prompt."
}

/// The word a timer-triggered cycle reports: the fetched word when the
/// fetch succeeded, the fixed fallback text when it did not.
pub open spec fn cycle_word_spec(fetched: Option<String>) -> Seq<char> {
    match fetched {
        Some(w) => w@,
        None => fallback_text_spec(),
    }
}

pub fn cycle_word(fetched: Option<String>) -> (w: String)
    ensures
        w@ == cycle_word_spec(fetched),
{
    match fetched {
        Some(w) => w,
        None => fallback_text().to_owned(),
    }
}

/// The notification body: the word between the bold markers, then the
/// interval in days, inside the fixed sentence.
pub open spec fn description_spec(word: Seq<char>, interval_days: int) -> Seq<char> {
    "Hello artists! The prompt for today is: **"@ + word
        + "**. \nThe next prompt will be posted in "@ + dec_digits(interval_days)
        + " days. Until then, have fun creating!"@
}

/// Builds the full notification for `word` with every fixed field of the
/// wire shape filled in.
pub fn build_webhook_message(word: &str, interval_days: u64) -> (m: WebhookMessage)
    ensures
        m.content@ == Seq::<char>::empty(),
        m.title@ == "Random Prompt Time!"@,
        m.description@ == description_spec(word@, interval_days as int),
        m.color == 0x00ff00u64,
        m.username@ == "Artists' Random Prompt Generator"@,
        m.avatar_url@ == "https://github.com/bitfl0wer/art-prompt-webhook/blob/main/static/icon.png?raw=true"@,
{
    let mut description = "Hello artists! The prompt for today is: **".to_owned();
    description.append(word);
    description.append("**. \nThe next prompt will be posted in ");
    let rendered_interval = u64_to_decimal(interval_days);
    description.append(rendered_interval.as_str());
    description.append(" days. Until then, have fun creating!");
    WebhookMessage {
        content: String::new(),
        title: "Random Prompt Time!".to_owned(),
        description,
        color: 0x00ff00,
        username: "Artists' Random Prompt Generator".to_owned(),
        avatar_url: "https://github.com/bitfl0wer/art-prompt-webhook/blob/main/static/icon.png?raw=true".to_owned(),
    }
}

} // verus!
