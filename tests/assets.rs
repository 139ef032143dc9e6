use bili_avatar::assets::Assets;

#[test]
fn asset_key_strips_leading_noise_and_folder() {
    assert_eq!(Assets::asset_key("logo.png"), "logo.png");
    assert_eq!(Assets::asset_key("assets/logo.png"), "logo.png");
    assert_eq!(Assets::asset_key("/assets/icons/a.svg"), "icons/a.svg");
    assert_eq!(Assets::asset_key("./assets/logo.png"), "logo.png");
    assert_eq!(Assets::asset_key(".\\assets\\logo.png"), "logo.png");
    assert_eq!(Assets::asset_key("///./././fonts/MiSansVF.ttf"), "fonts/MiSansVF.ttf");
    assert_eq!(Assets::asset_key("assets/assets/x"), "assets/x");
    assert_eq!(Assets::asset_key(""), "");
}

#[test]
fn asset_key_trims_in_fixed_order() {
    // A slash after "./" is not trimmed again: the slash pass comes first.
    assert_eq!(Assets::asset_key(".//logo.png"), "/logo.png");
}
