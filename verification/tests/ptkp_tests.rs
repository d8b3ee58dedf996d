use pph21::ptkp::{PtkpStatus, TerCategory};

#[test]
fn categories_follow_the_business_rule() {
    assert_eq!(PtkpStatus::TK0.get_ter_category(), TerCategory::A);
    assert_eq!(PtkpStatus::TK1.get_ter_category(), TerCategory::A);
    assert_eq!(PtkpStatus::K0.get_ter_category(), TerCategory::A);
    assert_eq!(PtkpStatus::TK2.get_ter_category(), TerCategory::B);
    assert_eq!(PtkpStatus::TK3.get_ter_category(), TerCategory::B);
    assert_eq!(PtkpStatus::K1.get_ter_category(), TerCategory::B);
    assert_eq!(PtkpStatus::K2.get_ter_category(), TerCategory::B);
    assert_eq!(PtkpStatus::K3.get_ter_category(), TerCategory::C);
}

#[test]
fn display_names_carry_the_fixed_labels() {
    assert_eq!(PtkpStatus::TK0.display_name(), "TK/0 - Tidak Kawin, Tanpa Tanggungan");
    assert_eq!(PtkpStatus::TK1.display_name(), "TK/1 - Tidak Kawin, 1 Tanggungan");
    assert_eq!(PtkpStatus::TK2.display_name(), "TK/2 - Tidak Kawin, 2 Tanggungan");
    assert_eq!(PtkpStatus::TK3.display_name(), "TK/3 - Tidak Kawin, 3 Tanggungan");
    assert_eq!(PtkpStatus::K0.display_name(), "K/0  - Kawin, Tanpa Tanggungan");
    assert_eq!(PtkpStatus::K1.display_name(), "K/1  - Kawin, 1 Tanggungan");
    assert_eq!(PtkpStatus::K2.display_name(), "K/2  - Kawin, 2 Tanggungan");
    assert_eq!(PtkpStatus::K3.display_name(), "K/3  - Kawin, 3 Tanggungan");
}
