use diskwatch::DeviceKind;

#[test]
fn model_sd_mmc_wins_over_internal_flag() {
    let model = Some(String::from("SD/MMC"));
    assert_eq!(DeviceKind::classify(&model, &Some(true)), DeviceKind::SdCard);
    assert_eq!(DeviceKind::classify(&model, &Some(false)), DeviceKind::SdCard);
    assert_eq!(DeviceKind::classify(&model, &None), DeviceKind::SdCard);
}

#[test]
fn model_micro_sd() {
    let model = Some(String::from("Micro SD/M2"));
    assert_eq!(DeviceKind::classify(&model, &Some(true)), DeviceKind::MicroSdCard);
    assert_eq!(DeviceKind::classify(&model, &None), DeviceKind::MicroSdCard);
}

#[test]
fn model_flash_disk() {
    let model = Some(String::from("Flash Disk"));
    assert_eq!(DeviceKind::classify(&model, &Some(true)), DeviceKind::UsbFlashDrive);
    assert_eq!(DeviceKind::classify(&model, &None), DeviceKind::UsbFlashDrive);
}

#[test]
fn unknown_model_falls_back_to_flag() {
    let model = Some(String::from("Some Disk 3000"));
    assert_eq!(DeviceKind::classify(&model, &Some(true)), DeviceKind::InternalDrive);
    assert_eq!(DeviceKind::classify(&model, &Some(false)), DeviceKind::ExternalDrive);
    assert_eq!(DeviceKind::classify(&model, &None), DeviceKind::Other);
}

#[test]
fn no_model_falls_back_to_flag() {
    assert_eq!(DeviceKind::classify(&None, &Some(true)), DeviceKind::InternalDrive);
    assert_eq!(DeviceKind::classify(&None, &Some(false)), DeviceKind::ExternalDrive);
    assert_eq!(DeviceKind::classify(&None, &None), DeviceKind::Other);
}

#[test]
fn model_match_is_exact() {
    let model = Some(String::from("sd/mmc"));
    assert_eq!(DeviceKind::classify(&model, &None), DeviceKind::Other);
    let model = Some(String::from("SD/MMC "));
    assert_eq!(DeviceKind::classify(&model, &Some(false)), DeviceKind::ExternalDrive);
}
