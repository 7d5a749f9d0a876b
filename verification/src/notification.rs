//! What is shown on the desktop when a block is found.

use crate::decimal::{decimal, decimal_digits};
use vstd::prelude::*;

verus! {

/// A desktop notification: a headline, the name of an icon, and a text.
#[derive(Clone, Debug, PartialEq, Eq)]
pub struct Notification {
    pub summary: String,
    pub icon: String,
    pub body: String,
}

/// A notification as a mathematical value.
pub struct NotificationView {
    pub summary: Seq<char>,
    pub icon: Seq<char>,
    pub body: Seq<char>,
}

impl View for Notification {
    type V = NotificationView;

    open spec fn view(&self) -> NotificationView {
        NotificationView { summary: self.summary@, icon: self.icon@, body: self.body@ }
    }
}

/// The notification of a new block: the headline names the pool, the text
/// gives the height of the block in decimal.
pub open spec fn announcement(mini: bool, height: u32) -> NotificationView {
    NotificationView {
        summary: if mini {
            "P2Pool Mini block found"@
        } else {
            "P2Pool block found"@
        },
        icon: "monero"@,
        body: "New block found at height "@ + decimal_digits(height as nat),
    }
}

/// Makes the notification of a new block at the given height.
pub fn block_found(mini: bool, height: u32) -> (n: Notification)
    ensures
        n@ == announcement(mini, height),
{
    let summary = if mini {
        "P2Pool Mini block found".to_owned()
    } else {
        "P2Pool block found".to_owned()
    };
    let mut body = "New block found at height ".to_owned();
    let digits = decimal(height);
    body.append(digits.as_str());
    Notification { summary, icon: "monero".to_owned(), body }
}

} // verus!
