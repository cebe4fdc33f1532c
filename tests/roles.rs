use cctp::stablecoin::storage::{Roles, StablecoinRoles};

#[test]
fn test_revoke_minter_and_controller() {
    let master_minter = [1u8; 32];
    let controller_1 = [2u8; 32];
    let minter_1 = [3u8; 32];
    let mut roles = StablecoinRoles::new();
    roles.configure_role(&Roles::MasterMinter.id(), &master_minter);
    roles.configure_role(&Roles::Controller.id(), &controller_1);
    roles.configure_role(&Roles::Minter.id(), &minter_1);
    assert!(roles.is_minter(&minter_1));
    let removed = roles.revoke_role(&Roles::Minter.id(), &minter_1);
    assert!(removed.is_some(), "MinterRemoved event not emitted");
    assert!(!roles.is_minter(&minter_1));
    let removed = roles.revoke_role(&Roles::Controller.id(), &controller_1);
    assert!(removed.is_some(), "ControllerRemoved event not emitted");
    assert!(!roles.is_controller(&controller_1));
    assert!(roles.is_master_minter(&master_minter));
}

#[test]
fn revoking_a_role_not_held_tells_nothing() {
    let mut roles = StablecoinRoles::new();
    assert_eq!(roles.revoke_role(&Roles::Pauser.id(), &[9u8; 32]), None);
    let event = roles.configure_role(&Roles::Pauser.id(), &[9u8; 32]);
    assert_eq!(event.role, [4u8; 32]);
    assert!(roles.is_pauser(&[9u8; 32]));
    assert!(!roles.is_pauser(&[8u8; 32]));
    assert!(!roles.is_owner(&[9u8; 32]));
    assert!(!roles.is_blacklister(&[9u8; 32]));
    assert!(!roles.is_blacklisted(&[9u8; 32]));
}
