//! Data the service's endpoints reply with, modelled over plain values.
//!
//! The wire format and its decoding belong to the transport layer outside
//! this crate; it fills these records and hands them in. Identifiers arrive
//! as their 128-bit value and timestamps as milliseconds since the epoch,
//! so every derived accessor here is ordinary verified logic.

use vstd::prelude::*;

use crate::rank::ColorCodes;
use crate::rank::MonthlyPackageRank;
use crate::rank::PackageRank;
use crate::rank::StaffLevel;

verus! {

/// A reply from the player endpoint.
#[derive(Debug, Clone)]
pub struct PlayerReply {
    pub success: bool,
    pub player: Option<PlayerData>,
}

impl PlayerReply {
    /// Whether the response was successful.
    pub fn success(&self) -> (r: bool)
        ensures
            r == self.success,
    {
        self.success
    }

    /// The data of the requested player; absent when the player is not
    /// linked to any record (and thus can be a nick).
    pub fn player(&self) -> (r: Option<&PlayerData>)
        ensures
            r matches Some(p) ==> self.player == Some(*p),
            r is None <==> self.player is None,
    {
        match &self.player {
            Some(p) => Some(p),
            None => None,
        }
    }
}

/// One player's record: the fields this crate's accessors read, each a
/// plain value.
#[derive(Debug, Clone)]
pub struct PlayerData {
    /// The player's identifier, as its 128-bit value.
    pub uuid: u128,
    pub display_name: Option<String>,
    /// Known past names, most recent last.
    pub known_aliases: Option<Vec<String>>,
    pub player_name: Option<String>,
    pub user_name: Option<String>,
    pub staff_level: Option<StaffLevel>,
    pub package_rank: Option<PackageRank>,
    pub new_package_rank: Option<PackageRank>,
    pub is_plus_plus: Option<MonthlyPackageRank>,
    pub rank_plus_color: Option<ColorCodes>,
    pub superstar_tag_color: Option<ColorCodes>,
    pub build_team: bool,
    pub build_team_admin: bool,
    /// Milliseconds since the epoch.
    pub first_login: Option<u64>,
    /// Milliseconds since the epoch.
    pub last_login: Option<u64>,
    /// Milliseconds since the epoch.
    pub last_logout: Option<u64>,
    pub karma: u64,
}

impl PlayerData {
    /// The name the player goes by, read from the name fields in order of
    /// preference: the display name, else the most recent known alias, else
    /// the player name, else the user name.
    pub open spec fn spec_name(self) -> Option<Seq<char>> {
        match self.display_name {
            Some(n) => Some(n@),
            None => match self.known_aliases {
                Some(a) => if a@.len() > 0 {
                    Some(a@.last()@)
                } else {
                    self.spec_fallback_name()
                },
                None => self.spec_fallback_name(),
            },
        }
    }

    /// The name fields consulted when neither a display name nor an alias
    /// is available.
    pub open spec fn spec_fallback_name(self) -> Option<Seq<char>> {
        match self.player_name {
            Some(n) => Some(n@),
            None => match self.user_name {
                Some(n) => Some(n@),
                None => None,
            },
        }
    }

    /// The player's identifier.
    pub fn uuid(&self) -> (r: u128)
        ensures
            r == self.uuid,
    {
        self.uuid
    }

    /// The player's name, when any of the name fields holds one.
    pub fn name(&self) -> (r: Option<&str>)
        ensures
            r matches Some(s) ==> self.spec_name() == Some(s@),
            r is None <==> self.spec_name() is None,
    {
        if let Some(n) = &self.display_name {
            return Some(n.as_str());
        }
        if let Some(aliases) = &self.known_aliases {
            if aliases.len() > 0 {
                return Some(aliases[aliases.len() - 1].as_str());
            }
        }
        if let Some(n) = &self.player_name {
            return Some(n.as_str());
        }
        if let Some(n) = &self.user_name {
            return Some(n.as_str());
        }
        None
    }

    /// The total karma points the player has earned; zero when the field
    /// was not present.
    pub fn karma(&self) -> (r: u64)
        ensures
            r == self.karma,
    {
        self.karma
    }

    /// When the player first connected, in milliseconds since the epoch.
    pub fn first_login(&self) -> (r: Option<u64>)
        ensures
            r == self.first_login,
    {
        self.first_login
    }

    /// When the player last connected to the main network, in milliseconds
    /// since the epoch.
    pub fn last_login(&self) -> (r: Option<u64>)
        ensures
            r == self.last_login,
    {
        self.last_login
    }

    /// When the player last disconnected from the main network, in
    /// milliseconds since the epoch.
    pub fn last_logout(&self) -> (r: Option<u64>)
        ensures
            r == self.last_logout,
    {
        self.last_logout
    }

    /// The colour of the player's pluses, red unless one was selected and a
    /// rank with pluses is held.
    pub fn selected_plus_color(&self) -> (r: ColorCodes)
        ensures
            r == (match self.rank_plus_color {
                Some(c) => c,
                None => ColorCodes::Red,
            }),
    {
        match self.rank_plus_color {
            Some(c) => c,
            None => ColorCodes::Red,
        }
    }

    /// The colour of the player's name tag under the monthly rank, gold by
    /// default.
    pub fn superstar_tag_color(&self) -> (r: ColorCodes)
        ensures
            r == (match self.superstar_tag_color {
                Some(c) => c,
                None => ColorCodes::Gold,
            }),
    {
        match self.superstar_tag_color {
            Some(c) => c,
            None => ColorCodes::Gold,
        }
    }

    /// The staff level the record reports, normal by default.
    pub open spec fn spec_staff_level(self) -> StaffLevel {
        match self.staff_level {
            Some(l) => l,
            None => StaffLevel::Normal,
        }
    }

    /// The player's staff level, normal when the field is absent.
    pub fn staff_level(&self) -> (r: &StaffLevel)
        ensures
            *r == self.spec_staff_level(),
    {
        match &self.staff_level {
            Some(l) => l,
            None => &StaffLevel::Normal,
        }
    }

    /// The highest-precedence purchasable rank the record reports: the
    /// monthly rank wins, then the newer rank field, then the older one.
    pub open spec fn spec_package_rank(self) -> PackageRank {
        let has_plus_plus = match self.is_plus_plus {
            Some(m) => m != MonthlyPackageRank::NoRank,
            None => false,
        };
        if has_plus_plus {
            PackageRank::MvpPlusPlus
        } else {
            match self.new_package_rank {
                Some(r) => if r != PackageRank::NoRank {
                    r
                } else {
                    self.spec_old_package_rank()
                },
                None => self.spec_old_package_rank(),
            }
        }
    }

    /// The rank in the older rank field, when it holds one.
    pub open spec fn spec_old_package_rank(self) -> PackageRank {
        match self.package_rank {
            Some(r) => r,
            None => PackageRank::NoRank,
        }
    }

    /// The highest-precedence purchasable rank the player holds.
    pub fn package_rank(&self) -> (r: PackageRank)
        ensures
            r == self.spec_package_rank(),
    {
        let has_plus_plus = match self.is_plus_plus {
            Some(m) => m != MonthlyPackageRank::NoRank,
            None => false,
        };
        if has_plus_plus {
            return PackageRank::MvpPlusPlus;
        }
        if let Some(rank) = self.new_package_rank {
            if rank != PackageRank::NoRank {
                return rank;
            }
        }
        match self.package_rank {
            Some(rank) => rank,
            None => PackageRank::NoRank,
        }
    }

    /// Whether the player holds a staff level or a purchasable rank.
    pub fn has_rank(&self) -> (r: bool)
        ensures
            r == (!(self.spec_staff_level() == StaffLevel::Normal) || self.spec_package_rank()
                != PackageRank::NoRank),
    {
        let staff_is_normal = match &self.staff_level {
            Some(l) => matches!(l, StaffLevel::Normal),
            None => true,
        };
        !staff_is_normal || self.package_rank() != PackageRank::NoRank
    }

    /// Whether the player is part of the build team.
    pub fn on_build_team(&self) -> (r: bool)
        ensures
            r == (self.build_team || self.build_team_admin),
    {
        self.build_team || self.build_team_admin
    }
}

/// A reply from the status endpoint.
#[derive(Debug, Clone)]
pub struct StatusReply {
    pub success: bool,
    pub data: StatusData,
}

impl StatusReply {
    /// Whether the response was successful.
    pub fn success(&self) -> (r: bool)
        ensures
            r == self.success,
    {
        self.success
    }

    /// The status record the reply carries.
    pub fn data(&self) -> (r: &StatusData)
        ensures
            *r == self.data,
    {
        &self.data
    }
}

/// One player's current status.
#[derive(Debug, Clone)]
pub struct StatusData {
    /// The player's identifier, as its 128-bit value.
    pub uuid: u128,
    pub session: SessionData,
}

impl StatusData {
    /// The player's identifier.
    pub fn uuid(&self) -> (r: u128)
        ensures
            r == self.uuid,
    {
        self.uuid
    }

    /// Whether the player is online; players may hide this, so false means
    /// offline or hidden.
    pub fn online(&self) -> (r: bool)
        ensures
            r == self.session.online,
    {
        self.session.online
    }

    /// The type of game the player is in, when present.
    pub fn game_type(&self) -> (r: Option<&str>)
        ensures
            r matches Some(s) ==> (self.session.game_type matches Some(g) && s@ == g@),
            r is None <==> self.session.game_type is None,
    {
        match &self.session.game_type {
            Some(g) => Some(g.as_str()),
            None => None,
        }
    }

    /// The mode of the game the player is in, when present.
    pub fn mode(&self) -> (r: Option<&str>)
        ensures
            r matches Some(s) ==> (self.session.mode matches Some(m) && s@ == m@),
            r is None <==> self.session.mode is None,
    {
        match &self.session.mode {
            Some(m) => Some(m.as_str()),
            None => None,
        }
    }

    /// The map the player is on, when present.
    pub fn map(&self) -> (r: Option<&str>)
        ensures
            r matches Some(s) ==> (self.session.map matches Some(m) && s@ == m@),
            r is None <==> self.session.map is None,
    {
        match &self.session.map {
            Some(m) => Some(m.as_str()),
            None => None,
        }
    }
}

/// One session as the status endpoint reports it.
#[derive(Debug, Clone)]
pub struct SessionData {
    pub online: bool,
    pub game_type: Option<String>,
    pub mode: Option<String>,
    pub map: Option<String>,
}

/// A reply from the key endpoint.
#[derive(Debug, Clone, Copy)]
pub struct KeyReply {
    pub success: bool,
    pub record: KeyData,
}

impl KeyReply {
    /// Whether the response was successful.
    pub fn success(&self) -> (r: bool)
        ensures
            r == self.success,
    {
        self.success
    }

    /// The key record the reply carries.
    pub fn record(&self) -> (r: &KeyData)
        ensures
            *r == self.record,
    {
        &self.record
    }
}

/// One key's usage record.
#[derive(Debug, Clone, Copy)]
pub struct KeyData {
    pub queries_in_past_min: i32,
    /// The owning player's identifier, as its 128-bit value.
    pub owner: u128,
    pub limit: i32,
    pub total_queries: i32,
}

impl KeyData {
    /// The number of requests in the past minute, as the service reports
    /// it.
    pub fn past_min(&self) -> (r: i32)
        ensures
            r == self.queries_in_past_min,
    {
        self.queries_in_past_min
    }

    /// The identifier of the player owning the key the request was sent
    /// with.
    pub fn owner(&self) -> (r: u128)
        ensures
            r == self.owner,
    {
        self.owner
    }

    /// The limit this key has; the service's default is 120.
    pub fn limit(&self) -> (r: i32)
        ensures
            r == self.limit,
    {
        self.limit
    }

    /// The total number of queries executed with the key.
    pub fn total_queries(&self) -> (r: i32)
        ensures
            r == self.total_queries,
    {
        self.total_queries
    }
}

} // verus!
