//! What a remote party says when it turns a call down.

use vstd::prelude::*;
use vstd::string::*;

verus! {

/// The class of a rejection, as the platform numbers it.
#[derive(Clone, Copy, Debug, PartialEq, Eq, Hash)]
pub enum RejectionCode {
    NoError,
    SysFatal,
    SysTransient,
    DestinationInvalid,
    CanisterReject,
    CanisterError,
    Unknown,
}

impl RejectionCode {
    /// The platform's number for the code; every code that has no number of
    /// its own counts as 6.
    pub open spec fn number(self) -> nat {
        match self {
            RejectionCode::NoError => 0,
            RejectionCode::SysFatal => 1,
            RejectionCode::SysTransient => 2,
            RejectionCode::DestinationInvalid => 3,
            RejectionCode::CanisterReject => 4,
            RejectionCode::CanisterError => 5,
            RejectionCode::Unknown => 6,
        }
    }

    /// The number written in decimal: a single digit.
    pub open spec fn number_text(self) -> Seq<char> {
        match self {
            RejectionCode::NoError => seq!['0'],
            RejectionCode::SysFatal => seq!['1'],
            RejectionCode::SysTransient => seq!['2'],
            RejectionCode::DestinationInvalid => seq!['3'],
            RejectionCode::CanisterReject => seq!['4'],
            RejectionCode::CanisterError => seq!['5'],
            RejectionCode::Unknown => seq!['6'],
        }
    }

    /// The code's name, as it is spelled in diagnostics.
    pub open spec fn name_text(self) -> Seq<char> {
        match self {
            RejectionCode::NoError => "NoError"@,
            RejectionCode::SysFatal => "SysFatal"@,
            RejectionCode::SysTransient => "SysTransient"@,
            RejectionCode::DestinationInvalid => "DestinationInvalid"@,
            RejectionCode::CanisterReject => "CanisterReject"@,
            RejectionCode::CanisterError => "CanisterError"@,
            RejectionCode::Unknown => "Unknown"@,
        }
    }

    /// The code that the platform's number stands for.
    pub open spec fn of_number(number: int) -> RejectionCode {
        if number == 0 {
            RejectionCode::NoError
        } else if number == 1 {
            RejectionCode::SysFatal
        } else if number == 2 {
            RejectionCode::SysTransient
        } else if number == 3 {
            RejectionCode::DestinationInvalid
        } else if number == 4 {
            RejectionCode::CanisterReject
        } else if number == 5 {
            RejectionCode::CanisterError
        } else {
            RejectionCode::Unknown
        }
    }

    pub fn from_number(number: i32) -> (code: RejectionCode)
        ensures
            code == RejectionCode::of_number(number as int),
    {
        if number == 0 {
            RejectionCode::NoError
        } else if number == 1 {
            RejectionCode::SysFatal
        } else if number == 2 {
            RejectionCode::SysTransient
        } else if number == 3 {
            RejectionCode::DestinationInvalid
        } else if number == 4 {
            RejectionCode::CanisterReject
        } else if number == 5 {
            RejectionCode::CanisterError
        } else {
            RejectionCode::Unknown
        }
    }

    pub fn as_number(self) -> (number: u8)
        ensures
            number == self.number(),
    {
        match self {
            RejectionCode::NoError => 0,
            RejectionCode::SysFatal => 1,
            RejectionCode::SysTransient => 2,
            RejectionCode::DestinationInvalid => 3,
            RejectionCode::CanisterReject => 4,
            RejectionCode::CanisterError => 5,
            RejectionCode::Unknown => 6,
        }
    }

    /// The decimal digit of the code's number.
    pub fn number_str(self) -> (digits: &'static str)
        ensures
            digits@ == self.number_text(),
    {
        proof {
            reveal_strlit("0");
            reveal_strlit("1");
            reveal_strlit("2");
            reveal_strlit("3");
            reveal_strlit("4");
            reveal_strlit("5");
            reveal_strlit("6");
        }
        let digits = match self {
            RejectionCode::NoError => "0",
            RejectionCode::SysFatal => "1",
            RejectionCode::SysTransient => "2",
            RejectionCode::DestinationInvalid => "3",
            RejectionCode::CanisterReject => "4",
            RejectionCode::CanisterError => "5",
            RejectionCode::Unknown => "6",
        };
        assert(digits@ =~= self.number_text());
        digits
    }

    pub fn name(self) -> (name: &'static str)
        ensures
            name@ == self.name_text(),
    {
        match self {
            RejectionCode::NoError => "NoError",
            RejectionCode::SysFatal => "SysFatal",
            RejectionCode::SysTransient => "SysTransient",
            RejectionCode::DestinationInvalid => "DestinationInvalid",
            RejectionCode::CanisterReject => "CanisterReject",
            RejectionCode::CanisterError => "CanisterError",
            RejectionCode::Unknown => "Unknown",
        }
    }
}

/// Numbers and codes correspond: the number of a code leads back to it.
pub proof fn code_of_its_number(code: RejectionCode)
    ensures
        RejectionCode::of_number(code.number() as int) == code,
        code.number() <= 6,
{
}

/// A rejection: the code and the message that came with it.
#[derive(Clone, Debug, PartialEq, Eq)]
pub struct Rejection {
    pub code: RejectionCode,
    pub message: String,
}

/// A rejection as a plain value.
pub struct RejectionView {
    pub code: RejectionCode,
    pub message: Seq<char>,
}

impl View for Rejection {
    type V = RejectionView;

    open spec fn view(&self) -> RejectionView {
        RejectionView { code: self.code, message: self.message@ }
    }
}

impl Rejection {
    pub fn new(code: RejectionCode, message: String) -> (rejection: Rejection)
        ensures
            rejection@ == (RejectionView { code, message: message@ }),
    {
        Rejection { code, message }
    }

    /// A copy of the rejection.
    pub fn duplicate(&self) -> (copy: Rejection)
        ensures
            copy@ == self@,
    {
        Rejection { code: self.code, message: self.message.clone() }
    }
}

/// The wording of a rejected call: the number of the code, then the message.
pub open spec fn call_failure_text(rejection: RejectionView) -> Seq<char> {
    "An error happened during the call: "@ + rejection.code.number_text() + ": "@
        + rejection.message
}

/// The wording of a rejected creation.
pub open spec fn creation_failure_text(rejection: RejectionView) -> Seq<char> {
    "Error while creating a canister: "@ + rejection.code.number_text() + ": "@
        + rejection.message
}

/// The wording of a failed fetch: the name of the code, then the message.
pub open spec fn fetch_failure_text(rejection: RejectionView) -> Seq<char> {
    "The http_request resulted into error. RejectionCode: "@ + rejection.code.name_text()
        + ", Error: "@ + rejection.message
}

impl Rejection {
    pub fn call_failure(&self) -> (text: String)
        ensures
            text@ == call_failure_text(self@),
    {
        let mut text = String::from_str("An error happened during the call: ");
        text.append(self.code.number_str());
        text.append(": ");
        text.append(self.message.as_str());
        text
    }

    pub fn creation_failure(&self) -> (text: String)
        ensures
            text@ == creation_failure_text(self@),
    {
        let mut text = String::from_str("Error while creating a canister: ");
        text.append(self.code.number_str());
        text.append(": ");
        text.append(self.message.as_str());
        text
    }

    pub fn fetch_failure(&self) -> (text: String)
        ensures
            text@ == fetch_failure_text(self@),
    {
        let mut text = String::from_str("The http_request resulted into error. RejectionCode: ");
        text.append(self.code.name());
        text.append(", Error: ");
        text.append(self.message.as_str());
        text
    }
}

} // verus!
