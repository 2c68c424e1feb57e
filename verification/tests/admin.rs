use lebontroc::admin::{
    est_super_admin, peut_administrer, peut_changer_role, peut_sanctionner, role_valide, AdminError,
    ROLE_ADMIN, ROLE_SUPER_ADMIN, ROLE_UTILISATEUR,
};

#[test]
fn hierarchie_des_acces() {
    assert!(!peut_administrer(ROLE_UTILISATEUR));
    assert!(peut_administrer(ROLE_ADMIN));
    assert!(peut_administrer(ROLE_SUPER_ADMIN));
    assert!(!est_super_admin(ROLE_ADMIN));
    assert!(est_super_admin(ROLE_SUPER_ADMIN));
}

#[test]
fn seul_un_super_admin_change_les_roles() {
    assert_eq!(
        peut_changer_role(ROLE_ADMIN, false, false, ROLE_ADMIN),
        Err(AdminError::NiveauInsuffisant)
    );
    assert_eq!(
        peut_changer_role(ROLE_UTILISATEUR, false, false, ROLE_ADMIN),
        Err(AdminError::NiveauInsuffisant)
    );
    assert!(peut_changer_role(ROLE_SUPER_ADMIN, false, false, ROLE_ADMIN).is_ok());
}

#[test]
fn le_compte_maitre_est_intouchable() {
    assert_eq!(
        peut_changer_role(ROLE_SUPER_ADMIN, false, true, ROLE_UTILISATEUR),
        Err(AdminError::CompteMaitre)
    );
    assert_eq!(peut_sanctionner(ROLE_SUPER_ADMIN, true), Err(AdminError::CompteMaitre));
    assert!(peut_sanctionner(ROLE_SUPER_ADMIN, false).is_ok());
}

#[test]
fn on_ne_change_pas_son_propre_role() {
    assert_eq!(
        peut_changer_role(ROLE_SUPER_ADMIN, true, false, ROLE_UTILISATEUR),
        Err(AdminError::SoiMeme)
    );
}

#[test]
fn role_inconnu_refuse() {
    assert_eq!(
        peut_changer_role(ROLE_SUPER_ADMIN, false, false, "dieu"),
        Err(AdminError::RoleInvalide)
    );
}

#[test]
fn roles_connus_et_inconnus() {
    assert!(role_valide("utilisateur"));
    assert!(role_valide("admin"));
    assert!(role_valide("super_admin"));
    assert!(!role_valide("Admin"));
    assert!(!role_valide(""));
}

#[test]
fn sanction_refusee_a_un_simple_admin() {
    assert_eq!(peut_sanctionner(ROLE_ADMIN, false), Err(AdminError::NiveauInsuffisant));
    // Le niveau est contrôlé avant le compte maître.
    assert_eq!(peut_sanctionner(ROLE_UTILISATEUR, true), Err(AdminError::NiveauInsuffisant));
}
