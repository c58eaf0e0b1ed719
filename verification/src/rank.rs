//! Rank and colour vocabulary of the service's player records.

use vstd::prelude::*;

verus! {

/// The monthly subscription rank a player may hold.
#[derive(Debug, Clone, Copy, PartialEq, Eq, PartialOrd, Structural)]
pub enum MonthlyPackageRank {
    NoRank,
    Superstar,
}

impl MonthlyPackageRank {
    /// The name the service uses for this rank.
    pub open spec fn spec_name(self) -> Seq<char> {
        match self {
            MonthlyPackageRank::NoRank => "NONE"@,
            MonthlyPackageRank::Superstar => "SUPERSTAR"@,
        }
    }

    /// The name the service uses for this rank.
    pub fn name(&self) -> (r: String)
        ensures
            r@ == self.spec_name(),
    {
        match self {
            MonthlyPackageRank::NoRank => String::from_str("NONE"),
            MonthlyPackageRank::Superstar => String::from_str("SUPERSTAR"),
        }
    }
}

/// The staff rank a player may hold; ranks the service adds later arrive as
/// `Unknown` with the raw name kept.
#[derive(Debug, Clone, PartialEq, Eq, PartialOrd)]
pub enum StaffLevel {
    Normal,
    Helper,
    Moderator,
    Admin,
    Unknown(String),
}

impl StaffLevel {
    /// The name the service uses for this level.
    pub open spec fn spec_name(self) -> Seq<char> {
        match self {
            StaffLevel::Normal => "NORMAL"@,
            StaffLevel::Helper => "HELPER"@,
            StaffLevel::Moderator => "MODERATOR"@,
            StaffLevel::Admin => "ADMIN"@,
            StaffLevel::Unknown(s) => s@,
        }
    }

    /// The name the service uses for this level.
    pub fn name(&self) -> (r: String)
        ensures
            r@ == self.spec_name(),
    {
        match self {
            StaffLevel::Normal => String::from_str("NORMAL"),
            StaffLevel::Helper => String::from_str("HELPER"),
            StaffLevel::Moderator => String::from_str("MODERATOR"),
            StaffLevel::Admin => String::from_str("ADMIN"),
            StaffLevel::Unknown(s) => s.clone(),
        }
    }
}

impl vstd::std_specs::convert::FromSpecImpl<String> for StaffLevel {
    open spec fn obeys_from_spec() -> bool {
        true
    }

    open spec fn from_spec(v: String) -> StaffLevel {
        if v@ == "NORMAL"@ {
            StaffLevel::Normal
        } else if v@ == "HELPER"@ {
            StaffLevel::Helper
        } else if v@ == "MODERATOR"@ {
            StaffLevel::Moderator
        } else if v@ == "ADMIN"@ {
            StaffLevel::Admin
        } else {
            StaffLevel::Unknown(v)
        }
    }
}

impl From<String> for StaffLevel {
    /// Reads the level from the raw name the service sent, keeping a name
    /// it does not know.
    fn from(s: String) -> (r: StaffLevel) {
        if s == String::from_str("NORMAL") {
            StaffLevel::Normal
        } else if s == String::from_str("HELPER") {
            StaffLevel::Helper
        } else if s == String::from_str("MODERATOR") {
            StaffLevel::Moderator
        } else if s == String::from_str("ADMIN") {
            StaffLevel::Admin
        } else {
            StaffLevel::Unknown(s)
        }
    }
}

/// The purchasable rank a player may hold.
#[derive(Debug, Clone, Copy, PartialEq, Eq, PartialOrd, Structural)]
pub enum PackageRank {
    NoRank,
    Vip,
    VipPlus,
    Mvp,
    MvpPlus,
    MvpPlusPlus,
}

impl PackageRank {
    /// The name the service uses for this rank.
    pub open spec fn spec_name(self) -> Seq<char> {
        match self {
            PackageRank::NoRank => "NONE"@,
            PackageRank::Vip => "VIP"@,
            PackageRank::VipPlus => "VIP_PLUS"@,
            PackageRank::Mvp => "MVP"@,
            PackageRank::MvpPlus => "MVP_PLUS"@,
            PackageRank::MvpPlusPlus => "MVP_PLUS_PLUS"@,
        }
    }

    /// The name the service uses for this rank.
    pub fn name(&self) -> (r: String)
        ensures
            r@ == self.spec_name(),
    {
        match self {
            PackageRank::NoRank => String::from_str("NONE"),
            PackageRank::Vip => String::from_str("VIP"),
            PackageRank::VipPlus => String::from_str("VIP_PLUS"),
            PackageRank::Mvp => String::from_str("MVP"),
            PackageRank::MvpPlus => String::from_str("MVP_PLUS"),
            PackageRank::MvpPlusPlus => String::from_str("MVP_PLUS_PLUS"),
        }
    }
}

/// The chat colour codes a rank can be displayed in.
#[derive(Debug, Clone, Copy, PartialEq, Eq, Structural)]
pub enum ColorCodes {
    Black,
    DarkBlue,
    DarkGreen,
    DarkAqua,
    DarkRed,
    DarkPurple,
    Gold,
    Gray,
    DarkGray,
    Blue,
    Green,
    Aqua,
    Red,
    LightPurple,
    Yellow,
    White,
}

impl ColorCodes {
    /// The name the service uses for this colour.
    pub open spec fn spec_name(self) -> Seq<char> {
        match self {
            ColorCodes::Black => "BLACK"@,
            ColorCodes::DarkBlue => "DARK_BLUE"@,
            ColorCodes::DarkGreen => "DARK_GREEN"@,
            ColorCodes::DarkAqua => "DARK_AQUA"@,
            ColorCodes::DarkRed => "DARK_RED"@,
            ColorCodes::DarkPurple => "DARK_PURPLE"@,
            ColorCodes::Gold => "GOLD"@,
            ColorCodes::Gray => "GRAY"@,
            ColorCodes::DarkGray => "DARK_GRAY"@,
            ColorCodes::Blue => "BLUE"@,
            ColorCodes::Green => "GREEN"@,
            ColorCodes::Aqua => "AQUA"@,
            ColorCodes::Red => "RED"@,
            ColorCodes::LightPurple => "LIGHT_PURPLE"@,
            ColorCodes::Yellow => "YELLOW"@,
            ColorCodes::White => "WHITE"@,
        }
    }

    /// The name the service uses for this colour.
    pub fn name(&self) -> (r: String)
        ensures
            r@ == self.spec_name(),
    {
        match self {
            ColorCodes::Black => String::from_str("BLACK"),
            ColorCodes::DarkBlue => String::from_str("DARK_BLUE"),
            ColorCodes::DarkGreen => String::from_str("DARK_GREEN"),
            ColorCodes::DarkAqua => String::from_str("DARK_AQUA"),
            ColorCodes::DarkRed => String::from_str("DARK_RED"),
            ColorCodes::DarkPurple => String::from_str("DARK_PURPLE"),
            ColorCodes::Gold => String::from_str("GOLD"),
            ColorCodes::Gray => String::from_str("GRAY"),
            ColorCodes::DarkGray => String::from_str("DARK_GRAY"),
            ColorCodes::Blue => String::from_str("BLUE"),
            ColorCodes::Green => String::from_str("GREEN"),
            ColorCodes::Aqua => String::from_str("AQUA"),
            ColorCodes::Red => String::from_str("RED"),
            ColorCodes::LightPurple => String::from_str("LIGHT_PURPLE"),
            ColorCodes::Yellow => String::from_str("YELLOW"),
            ColorCodes::White => String::from_str("WHITE"),
        }
    }
}

} // verus!
