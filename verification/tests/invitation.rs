use tenant_identity::Invitation;

fn now_millis() -> i64 {
    chrono::Utc::now().timestamp_millis()
}

const DAY_MILLIS: i64 = 86_400_000;

#[test]
fn test_new_empty_invitation_id() {
    let actual = Invitation::new("", "aDescription");
    assert!(actual.is_err());
    assert_eq!(actual.unwrap_err().message(), "The invitation_id is required")
}

#[test]
fn test_new_long_invitation_id() {
    let actual = Invitation::new("0".repeat(37).as_str(), "aDescription");
    assert!(actual.is_err());
    assert_eq!(
        actual.unwrap_err().message(),
        "The invitation_id must be long between 1 and 36 characters"
    )
}

#[test]
fn test_new_empty_invitation_description() {
    let actual = Invitation::new("anInvitationId", "");
    assert!(actual.is_err());
    assert_eq!(actual.unwrap_err().message(), "The description is required")
}

#[test]
fn test_new_long_invitation_description() {
    let actual = Invitation::new("anInvitationId", "0".repeat(101).as_str());
    assert!(actual.is_err());
    assert_eq!(
        actual.unwrap_err().message(),
        "The description must be 100 characters or less"
    )
}

#[test]
fn test_new_invitation() {
    let actual = Invitation::new("anInvitationId", "aDescription");
    assert!(actual.is_ok());
    let invitation = actual.unwrap();
    assert_eq!(invitation.invitation_id(), "anInvitationId");
    assert_eq!(invitation.description(), "aDescription");
    assert_eq!(invitation.starting_on(), None);
    assert_eq!(invitation.until(), None);
}

#[test]
fn test_invitation_is_available_no_validity() {
    let actual = Invitation::new("anInvitationId", "aDescription");
    assert_eq!(true, actual.unwrap().is_available());
}

#[test]
fn test_invitation_is_available_with_validity_in_past() {
    let past = now_millis() - DAY_MILLIS;
    let mut actual = Invitation::new("anInvitationId", "aDescription").unwrap();
    let _ = actual.redefine_as(i64::MIN, past);
    assert_eq!(false, actual.is_available());
}

#[test]
fn test_invitation_is_available_with_validity_in_future() {
    let future = now_millis() + DAY_MILLIS;
    let mut actual = Invitation::new("anInvitationId", "aDescription").unwrap();
    let _ = actual.redefine_as(future, i64::MAX);
    assert_eq!(false, actual.is_available());
}

#[test]
fn test_invitation_is_available_with_validity() {
    let past = now_millis() - DAY_MILLIS;
    let future = now_millis() + DAY_MILLIS;
    let mut actual = Invitation::new("anInvitationId", "aDescription").unwrap();
    let _ = actual.redefine_as(past, future);
    assert_eq!(true, actual.is_available());
}

#[test]
fn test_invitation_is_identified_by_invitation_id() {
    let invitation = Invitation::new("anInvitationId", "aDescription").unwrap();
    assert_eq!(true, invitation.is_identified_by("anInvitationId"));
}

#[test]
fn test_invitation_is_identified_by_description() {
    let invitation = Invitation::new("anInvitationId", "aDescription").unwrap();
    assert_eq!(true, invitation.is_identified_by("aDescription"));
}

#[test]
fn test_invitation_is_identified_not_identified() {
    let invitation = Invitation::new("anInvitationId", "aDescription").unwrap();
    assert_eq!(false, invitation.is_identified_by("missing"));
}

#[test]
fn test_invitation_redefine_as_open_ended() {
    let mut invitation = Invitation::new("anInvitationId", "aDescription").unwrap();
    let _ = invitation.redefine_as(i64::MIN, i64::MAX);
    invitation.redefine_as_open_ended();
    assert_eq!(None, invitation.starting_on());
    assert_eq!(None, invitation.until());
}

#[test]
fn test_invitation_redefine_as_invalid_end() {
    let mut invitation = Invitation::new("anInvitationId", "aDescription").unwrap();

    let res = invitation.redefine_as(i64::MAX, i64::MIN);
    assert!(res.is_err());
    assert_eq!(
        res.unwrap_err().message(),
        "starting_on must occur before until"
    )
}

#[test]
fn test_invitation_redefinition_scenario() {
    let now = now_millis();
    let past = now - 2 * DAY_MILLIS;
    let past_later = now - DAY_MILLIS;
    let future = now + DAY_MILLIS;

    let mut invitation = Invitation::new("inv-1", "Launch window").unwrap();
    assert!(invitation.redefine_as(past, future).is_ok());
    assert_eq!(true, invitation.is_available());

    invitation.redefine_as_open_ended();
    assert_eq!(true, invitation.is_available());

    assert!(invitation.redefine_as(past, past_later).is_ok());
    assert_eq!(false, invitation.is_available());
}

#[test]
fn test_invitation_boundary_lengths() {
    let id_36 = "0".repeat(36);
    let desc_100 = "d".repeat(100);
    let ok = Invitation::new(id_36.as_str(), desc_100.as_str());
    assert!(ok.is_ok());
    let invitation = ok.unwrap();
    assert_eq!(invitation.invitation_id(), id_36.as_str());
    assert_eq!(invitation.description(), desc_100.as_str());
}

#[test]
fn test_invitation_redefine_as_interval_half_open() {
    let now = now_millis();
    let past = now - DAY_MILLIS;
    let future = now + DAY_MILLIS;
    let mut invitation = Invitation::new("anInvitationId", "aDescription").unwrap();

    assert!(invitation
        .redefine_as_interval(tenant_identity::Validity::StartingOn(past))
        .is_ok());
    assert_eq!(Some(past), invitation.starting_on());
    assert_eq!(None, invitation.until());
    assert_eq!(true, invitation.is_available());

    assert!(invitation
        .redefine_as_interval(tenant_identity::Validity::Until(past))
        .is_ok());
    assert_eq!(None, invitation.starting_on());
    assert_eq!(Some(past), invitation.until());
    assert_eq!(false, invitation.is_available());

    assert!(invitation
        .redefine_as_interval(tenant_identity::Validity::StartingOn(future))
        .is_ok());
    assert_eq!(false, invitation.is_available());

    let res = invitation.redefine_as_interval(tenant_identity::Validity::Bounded(future, past));
    assert!(res.is_err());
    assert_eq!(
        res.unwrap_err().message(),
        "starting_on must occur before until"
    );
    assert_eq!(Some(future), invitation.starting_on());
}

#[test]
fn test_invitation_is_available_at_each_shape() {
    let mut invitation = Invitation::new("anInvitationId", "aDescription").unwrap();

    assert_eq!(true, invitation.is_available_at(i64::MIN));
    assert_eq!(true, invitation.is_available_at(0));
    assert_eq!(true, invitation.is_available_at(i64::MAX));

    assert!(invitation.redefine_as(10, 20).is_ok());
    assert_eq!(false, invitation.is_available_at(9));
    assert_eq!(true, invitation.is_available_at(10));
    assert_eq!(true, invitation.is_available_at(15));
    assert_eq!(true, invitation.is_available_at(20));
    assert_eq!(false, invitation.is_available_at(21));
}
