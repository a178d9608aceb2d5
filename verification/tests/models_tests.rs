use sinan_backend::models::vector_grid_size;
use sinan_backend::models::{default_model_source, devices_to_compare, DeviceType, InterferenceType};

#[test]
fn device_display_names_and_eras() {
    assert_eq!(DeviceType::Sinan.display_name(), "司南（磁勺）");
    assert_eq!(DeviceType::Zhinanyu.display_name(), "指南鱼");
    assert_eq!(DeviceType::HanLuopan.display_name(), "旱罗盘");
    assert_eq!(DeviceType::MemsCompass.display_name(), "现代MEMS电子罗盘");
    assert_eq!(DeviceType::Sinan.era(), "战国-汉代（公元前3世纪-公元3世纪）");
    assert_eq!(DeviceType::MemsCompass.era(), "现代（公元21世纪）");
}

#[test]
fn device_catalogue_lists_each_device_once() {
    let all = DeviceType::all();
    assert_eq!(
        all,
        vec![DeviceType::Sinan, DeviceType::Zhinanyu, DeviceType::HanLuopan, DeviceType::MemsCompass]
    );
    for (i, a) in all.iter().enumerate() {
        for (j, b) in all.iter().enumerate() {
            assert_eq!(i == j, a == b);
        }
    }
}

#[test]
fn device_notes_cite_sources() {
    assert!(DeviceType::Sinan.notes().contains("《韩非子·有度》"));
    assert!(DeviceType::Zhinanyu.notes().contains("《武经总要》"));
    assert!(DeviceType::HanLuopan.notes().starts_with("宋代出现的旱罗盘"));
    assert!(DeviceType::MemsCompass.notes().starts_with("基于MEMS"));
}

#[test]
fn interference_catalogue_has_six_described_sources() {
    let types = InterferenceType::all();
    assert_eq!(types.len(), 6);
    for t in &types {
        assert!(!t.display_name().is_empty());
        assert!(!t.data_source().is_empty());
        assert_eq!(t.measurement_unit(), "nT (纳特斯拉, 1nT = 10⁻⁹ T)");
    }
    assert_eq!(InterferenceType::Loudspeaker.display_name(), "扬声器/磁铁");
    assert!(InterferenceType::PowerLine.data_source().starts_with("IEEE Std 644-1994"));
}

#[test]
fn empty_device_request_means_every_device() {
    assert_eq!(devices_to_compare(&vec![]), DeviceType::all());
    let chosen = vec![DeviceType::HanLuopan, DeviceType::Sinan];
    assert_eq!(devices_to_compare(&chosen), chosen);
    let repeated = vec![DeviceType::Sinan, DeviceType::Sinan];
    assert_eq!(devices_to_compare(&repeated), repeated);
}

#[test]
fn default_model_source_is_cals10k() {
    assert_eq!(default_model_source(), "CALS10K");
}

#[test]
fn vector_grid_size_is_clamped_to_three_to_fifty() {
    assert_eq!(vector_grid_size(0), 3);
    assert_eq!(vector_grid_size(3), 3);
    assert_eq!(vector_grid_size(20), 20);
    assert_eq!(vector_grid_size(50), 50);
    assert_eq!(vector_grid_size(51), 50);
    assert_eq!(vector_grid_size(usize::MAX), 50);
}
