use groundwork::accounts;
use groundwork::flow;
use groundwork::gating;
use groundwork::matching;
use groundwork::net;
use groundwork::records;
use groundwork::rects::Rectangle;
use groundwork::results;
use groundwork::validation;

#[test]
fn sample_account_fields() {
    let user = accounts::User::get();
    assert_eq!(user.name.as_str(), "User-01");
    assert_eq!(user.age(), 32);
    assert_eq!(user.type_label().as_str(), "ADMIN");
}

#[test]
fn built_record_keeps_its_parts() {
    let user = records::get_user(String::from("User-3"), 17, String::from("EEE"));
    assert_eq!(user.name.as_str(), "User-3");
    assert_eq!(user.age, 17);
    assert_eq!(user.department.as_str(), "EEE");
}

#[test]
fn rectangle_area_and_accessors() {
    let rect = Rectangle { width: 5, height: 7 };
    assert_eq!(rect.width(), 5);
    assert_eq!(rect.height(), 7);
    assert_eq!(rect.area(), 35);
}

#[test]
fn square_has_equal_sides() {
    let sq = Rectangle::square(3);
    assert_eq!(sq.width(), 3);
    assert_eq!(sq.height(), 3);
    assert_eq!(sq.area(), 9);
}

#[test]
fn can_hold_needs_strictly_larger_sides() {
    let rect1 = Rectangle { width: 30, height: 50 };
    let rect2 = Rectangle { width: 10, height: 40 };
    let rect3 = Rectangle { width: 60, height: 45 };
    assert!(rect1.can_hold(&rect2));
    assert!(!rect1.can_hold(&rect3));
    assert!(!rect2.can_hold(&rect1));
}

#[test]
fn addr_text_per_kind() {
    assert_eq!(matching::get_addr(matching::IpAddrType::IPV4).as_str(), "127.0.01");
    assert_eq!(
        matching::get_addr(matching::IpAddrType::IPV6).as_str(),
        "0000:0000:0000:0000:0000:0000:0000:0001"
    );
}

#[test]
fn employee_status_by_kind() {
    assert!(matching::display_emplyee_status(matching::EmployeeType::PERMANENT));
    assert!(!matching::display_emplyee_status(matching::EmployeeType::CONTRACT));
    assert!(matching::display_emplyee_status(matching::EmployeeType::FIELD(
        matching::EntryStatus::GRANTED
    )));
    assert!(matching::display_emplyee_status(matching::EmployeeType::FIELD(
        matching::EntryStatus::BLOCKED
    )));
}

#[test]
fn plus_five_adds_one_when_present() {
    assert_eq!(matching::plus_five(Some(5)), Some(6));
    assert_eq!(matching::plus_five(None), None);
}

#[test]
fn binary_codes_match_except_one() {
    assert!(matching::match_binary_type(matching::BinaryType::BIN00));
    assert!(matching::match_binary_type(matching::BinaryType::BIN01));
    assert!(!matching::match_binary_type(matching::BinaryType::BIN10));
    assert!(matching::match_binary_type(matching::BinaryType::BIN11));
}

#[test]
fn notify_only_the_blocked_user() {
    assert!(gating::check_user_status(gating::UserStatus::BLOCKED));
    assert!(!gating::check_user_status(gating::UserStatus::WHITELIST));
    assert!(!gating::check_user_status(gating::UserStatus::GREYLIST));
}

#[test]
fn both_checks_agree() {
    assert!(gating::check_user_status_2(gating::UserStatus::BLOCKED));
    assert!(!gating::check_user_status_2(gating::UserStatus::WHITELIST));
    assert!(!gating::check_user_status_2(gating::UserStatus::GREYLIST));
}

#[test]
fn single_pattern_address_lines() {
    let v4 = gating::IpAddrType::IPV4(String::from("127.0.0.1"));
    let v6 = gating::IpAddrType::IPV6(String::from("0:0:0:0:0:0:0:1"));
    assert_eq!(gating::display_ip(v4).as_str(), "IPv4 address is 127.0.0.1");
    assert_eq!(gating::display_ip(v6).as_str(), "Address is IPv6");
}

#[test]
fn blocked_or_allowed() {
    assert!(flow::user_is_blocked(flow::UserStatus::BLOCKED));
    assert!(!flow::user_is_blocked(flow::UserStatus::ALLOWED));
    assert_eq!(
        flow::display_user_status(flow::UserStatus::BLOCKED).as_str(),
        "User is blocked for service"
    );
    assert_eq!(
        flow::display_user_status(flow::UserStatus::ALLOWED).as_str(),
        "User is allowed for service"
    );
}

#[test]
fn address_lines() {
    let v4 = flow::IpAddrType::IPV4(String::from("127.0.0.1"));
    let v6 = flow::IpAddrType::IPV6(String::from("0:0:0:0:0:0:0:1"));
    assert_eq!(flow::display_ip(v4).as_str(), "IP address is IPv4");
    assert_eq!(
        flow::display_ip(v6).as_str(),
        "IP address is IPv6, IP value is 0:0:0:0:0:0:0:1"
    );
}

#[test]
fn increment_only_the_present_value() {
    assert_eq!(flow::increment_value(Some(13)), Some(14));
    assert_eq!(flow::increment_value(None), None);
}

#[test]
fn optional_lines() {
    assert_eq!(flow::display_optional(Some(13)).as_str(), "Value is 13");
    assert_eq!(flow::display_optional(Some(-4)).as_str(), "Value is -4");
    assert_eq!(flow::display_optional(None).as_str(), "Value is None");
}

#[test]
fn loopback_by_version() {
    let v4 = net::get_ip_addr(true);
    assert!(v4.display().is_none());
    let v6 = net::get_ip_addr(false);
    assert_eq!(v6.display().unwrap().as_str(), "0:0:0:0:0:0:0:1");
    assert_eq!(net::use_ip_addr(v6).unwrap().as_str(), "0:0:0:0:0:0:0:1");
    assert!(net::use_ip_addr(v4).is_none());
}

#[test]
fn validated_ages_read_back() {
    let age = validation::Aget::new(20);
    assert_eq!(age.age(), 20);
    let age = validation::ValidAge::new(20);
    assert_eq!(age.get_age(), 20);
}

#[test]
fn source_succeeds_only_on_the_flag() {
    assert_eq!(results::get_str_or_err(true).unwrap().as_str(), "sample string");
    assert_eq!(results::get_str_or_err(false).unwrap_err(), results::DataError::InvalidData);
}

#[test]
fn propagation_passes_the_outcome_through() {
    assert_eq!(results::get_message(true).unwrap().as_str(), "sample string");
    assert_eq!(results::get_message(false).unwrap_err(), results::DataError::InvalidData);
    assert_eq!(results::get_message_02(true).unwrap().as_str(), "sample string");
    assert_eq!(results::get_message_02(false).unwrap_err(), results::DataError::InvalidData);
}

#[test]
fn error_message_text() {
    assert_eq!(
        results::DataError::InvalidData.message().as_str(),
        "Invalid input can not create data"
    );
}
