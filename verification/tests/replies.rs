use hypixel_api::error::ErrorReply;
use hypixel_api::rank::ColorCodes;
use hypixel_api::rank::MonthlyPackageRank;
use hypixel_api::rank::PackageRank;
use hypixel_api::rank::StaffLevel;
use hypixel_api::reply::KeyData;
use hypixel_api::reply::KeyReply;
use hypixel_api::reply::PlayerData;
use hypixel_api::reply::PlayerReply;
use hypixel_api::reply::SessionData;
use hypixel_api::reply::StatusData;
use hypixel_api::reply::StatusReply;

fn sample_player() -> PlayerData {
    PlayerData {
        uuid: 0x3fa85f6457174562b3fc2c963f66afa6,
        display_name: None,
        known_aliases: None,
        player_name: None,
        user_name: None,
        staff_level: None,
        package_rank: None,
        new_package_rank: None,
        is_plus_plus: None,
        rank_plus_color: None,
        superstar_tag_color: None,
        build_team: false,
        build_team_admin: false,
        first_login: None,
        last_login: None,
        last_logout: None,
        karma: 0,
    }
}

#[test]
fn name_prefers_the_display_name() {
    let mut player = sample_player();
    player.display_name = Some(String::from("Current"));
    player.known_aliases = Some(vec![String::from("Old"), String::from("Older")]);
    player.player_name = Some(String::from("Fallback"));
    assert_eq!(player.name(), Some("Current"));
}

#[test]
fn name_falls_back_to_the_most_recent_alias() {
    let mut player = sample_player();
    player.known_aliases = Some(vec![String::from("First"), String::from("Recent")]);
    assert_eq!(player.name(), Some("Recent"));
}

#[test]
fn name_skips_an_empty_alias_list() {
    let mut player = sample_player();
    player.known_aliases = Some(vec![]);
    player.player_name = Some(String::from("ByPlayerName"));
    assert_eq!(player.name(), Some("ByPlayerName"));

    player.player_name = None;
    player.user_name = Some(String::from("ByUserName"));
    assert_eq!(player.name(), Some("ByUserName"));

    player.user_name = None;
    assert_eq!(player.name(), None);
}

#[test]
fn package_rank_follows_the_precedence_rules() {
    let mut player = sample_player();
    assert_eq!(player.package_rank(), PackageRank::NoRank);

    player.package_rank = Some(PackageRank::Vip);
    assert_eq!(player.package_rank(), PackageRank::Vip);

    player.new_package_rank = Some(PackageRank::MvpPlus);
    assert_eq!(player.package_rank(), PackageRank::MvpPlus);

    // A blank newer field falls back to the older one.
    player.new_package_rank = Some(PackageRank::NoRank);
    assert_eq!(player.package_rank(), PackageRank::Vip);

    player.is_plus_plus = Some(MonthlyPackageRank::Superstar);
    assert_eq!(player.package_rank(), PackageRank::MvpPlusPlus);

    player.is_plus_plus = Some(MonthlyPackageRank::NoRank);
    assert_eq!(player.package_rank(), PackageRank::Vip);
}

#[test]
fn has_rank_sees_staff_and_packages() {
    let mut player = sample_player();
    assert!(!player.has_rank());

    player.staff_level = Some(StaffLevel::Helper);
    assert!(player.has_rank());

    player.staff_level = Some(StaffLevel::Normal);
    assert!(!player.has_rank());

    player.package_rank = Some(PackageRank::Mvp);
    assert!(player.has_rank());
}

#[test]
fn colors_default_to_red_and_gold() {
    let mut player = sample_player();
    assert_eq!(player.selected_plus_color(), ColorCodes::Red);
    assert_eq!(player.superstar_tag_color(), ColorCodes::Gold);
    player.rank_plus_color = Some(ColorCodes::Aqua);
    player.superstar_tag_color = Some(ColorCodes::Black);
    assert_eq!(player.selected_plus_color(), ColorCodes::Aqua);
    assert_eq!(player.superstar_tag_color(), ColorCodes::Black);
}

#[test]
fn staff_level_defaults_to_normal() {
    let mut player = sample_player();
    assert_eq!(*player.staff_level(), StaffLevel::Normal);
    player.staff_level = Some(StaffLevel::Admin);
    assert_eq!(*player.staff_level(), StaffLevel::Admin);
}

#[test]
fn build_team_membership_is_either_flag() {
    let mut player = sample_player();
    assert!(!player.on_build_team());
    player.build_team = true;
    assert!(player.on_build_team());
    player.build_team = false;
    player.build_team_admin = true;
    assert!(player.on_build_team());
}

#[test]
fn login_timestamps_pass_through() {
    let mut player = sample_player();
    player.first_login = Some(0);
    player.last_login = Some(1234567890123);
    assert_eq!(player.first_login(), Some(0));
    assert_eq!(player.last_login(), Some(1234567890123));
    assert_eq!(player.last_logout(), None);
    assert_eq!(player.karma(), 0);
    assert_eq!(player.uuid(), 0x3fa85f6457174562b3fc2c963f66afa6);
}

#[test]
fn player_reply_exposes_its_record() {
    let reply = PlayerReply {
        success: true,
        player: Some(sample_player()),
    };
    assert!(reply.success());
    assert!(reply.player().is_some());
    let nick = PlayerReply {
        success: true,
        player: None,
    };
    assert!(nick.player().is_none());
}

#[test]
fn status_reply_reads_the_session() {
    let status = StatusReply {
        success: true,
        data: StatusData {
            uuid: 0xad8fefaa8351454bb739a4eaa872173f,
            session: SessionData {
                online: true,
                game_type: Some(String::from("BEDWARS")),
                mode: Some(String::from("FOUR_FOUR")),
                map: None,
            },
        },
    };
    assert!(status.success());
    let data = status.data();
    assert_eq!(data.uuid(), 0xad8fefaa8351454bb739a4eaa872173f);
    assert!(data.online());
    assert_eq!(data.game_type(), Some("BEDWARS"));
    assert_eq!(data.mode(), Some("FOUR_FOUR"));
    assert_eq!(data.map(), None);
}

#[test]
fn key_reply_reads_the_record() {
    let key = KeyReply {
        success: true,
        record: KeyData {
            queries_in_past_min: 7,
            owner: 0x069a79f444e94726a5befca90e38aaf5,
            limit: 120,
            total_queries: 12345,
        },
    };
    assert!(key.success());
    let record = key.record();
    assert_eq!(record.past_min(), 7);
    assert_eq!(record.owner(), 0x069a79f444e94726a5befca90e38aaf5);
    assert_eq!(record.limit(), 120);
    assert_eq!(record.total_queries(), 12345);
}

#[test]
fn rank_names_match_the_wire_names() {
    assert_eq!(MonthlyPackageRank::NoRank.name(), "NONE");
    assert_eq!(MonthlyPackageRank::Superstar.name(), "SUPERSTAR");
    assert_eq!(PackageRank::MvpPlusPlus.name(), "MVP_PLUS_PLUS");
    assert_eq!(PackageRank::VipPlus.name(), "VIP_PLUS");
    assert_eq!(ColorCodes::DarkPurple.name(), "DARK_PURPLE");
    assert_eq!(ColorCodes::LightPurple.name(), "LIGHT_PURPLE");
    assert_eq!(StaffLevel::Moderator.name(), "MODERATOR");
    assert_eq!(
        StaffLevel::Unknown(String::from("YOUTUBER")).name(),
        "YOUTUBER"
    );
}

#[test]
fn staff_level_reads_known_and_unknown_names() {
    assert_eq!(StaffLevel::from(String::from("NORMAL")), StaffLevel::Normal);
    assert_eq!(StaffLevel::from(String::from("HELPER")), StaffLevel::Helper);
    assert_eq!(
        StaffLevel::from(String::from("MODERATOR")),
        StaffLevel::Moderator
    );
    assert_eq!(StaffLevel::from(String::from("ADMIN")), StaffLevel::Admin);
    assert_eq!(
        StaffLevel::from(String::from("YOUTUBER")),
        StaffLevel::Unknown(String::from("YOUTUBER"))
    );
}

#[test]
fn error_reply_exposes_its_fields() {
    let reply = ErrorReply {
        success: false,
        cause: String::from("Invalid API key"),
    };
    assert!(!reply.success());
    assert_eq!(reply.cause(), "Invalid API key");
}
