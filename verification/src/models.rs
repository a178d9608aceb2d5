//! The device and interference catalogues.

use vstd::prelude::*;

verus! {

/// The four historical and modern direction-finding devices that the simulator compares.
#[derive(Clone, Copy, Debug, PartialEq, Eq, Hash, Structural)]
pub enum DeviceType {
    Sinan,
    Zhinanyu,
    HanLuopan,
    MemsCompass,
}

/// Every device type, in catalogue order.
pub open spec fn spec_all_device_types() -> Seq<DeviceType> {
    seq![DeviceType::Sinan, DeviceType::Zhinanyu, DeviceType::HanLuopan, DeviceType::MemsCompass]
}

impl DeviceType {
    pub open spec fn spec_display_name(self) -> Seq<char> {
        match self {
            DeviceType::Sinan => "司南（磁勺）"@,
            DeviceType::Zhinanyu => "指南鱼"@,
            DeviceType::HanLuopan => "旱罗盘"@,
            DeviceType::MemsCompass => "现代MEMS电子罗盘"@,
        }
    }

    pub open spec fn spec_era(self) -> Seq<char> {
        match self {
            DeviceType::Sinan => "战国-汉代（公元前3世纪-公元3世纪）"@,
            DeviceType::Zhinanyu => "宋代（公元10-13世纪）"@,
            DeviceType::HanLuopan => "宋代-明清（公元11世纪-19世纪）"@,
            DeviceType::MemsCompass => "现代（公元21世纪）"@,
        }
    }

    pub open spec fn spec_notes(self) -> Seq<char> {
        match self {
            DeviceType::Sinan => "战国至汉代发明，天然磁铁矿琢磨成勺形，放置于青铜地盘。因勺底摩擦较大、天然磁石磁性较弱，典型指向误差约5°-20°。文献记载：'司南之杓，投之于地，其柢指南'（《韩非子·有度》）。"@,
            DeviceType::Zhinanyu => "北宋《武经总要》记载的军事指南工具，薄铁叶剪裁成鱼形，经地磁场磁化后浮于水面。水浮摩擦极小，但铁片剩磁较弱，典型误差约3°-10°。"@,
            DeviceType::HanLuopan => "宋代出现的旱罗盘，将磁针贯穿灯芯草或支承于尖枢轴上，配合二十四向方位盘。磁针细长形各向异性强、摩擦极小，典型误差约1°-5°，是古代航海的主要导航工具。"@,
            DeviceType::MemsCompass => "基于MEMS（微机电系统）技术的现代电子罗盘，通常采用各向异性磁阻(AMR)或隧穿磁阻(TMR)传感器，配合三轴加速度计倾角补偿、硬铁/软铁校准，典型精度0.5°-2°，消费级可达0.3°以内。"@,
        }
    }

    /// Human-readable name of the device.
    pub fn display_name(&self) -> (name: &'static str)
        ensures
            name@ == self.spec_display_name(),
    {
        match self {
            DeviceType::Sinan => "司南（磁勺）",
            DeviceType::Zhinanyu => "指南鱼",
            DeviceType::HanLuopan => "旱罗盘",
            DeviceType::MemsCompass => "现代MEMS电子罗盘",
        }
    }

    /// The historical period in which the device was in use.
    pub fn era(&self) -> (era: &'static str)
        ensures
            era@ == self.spec_era(),
    {
        match self {
            DeviceType::Sinan => "战国-汉代（公元前3世纪-公元3世纪）",
            DeviceType::Zhinanyu => "宋代（公元10-13世纪）",
            DeviceType::HanLuopan => "宋代-明清（公元11世纪-19世纪）",
            DeviceType::MemsCompass => "现代（公元21世纪）",
        }
    }

    /// Historical background and typical accuracy of the device, reported with each
    /// simulated accuracy.
    pub fn notes(&self) -> (notes: String)
        ensures
            notes@ == self.spec_notes(),
    {
        let text = match self {
            DeviceType::Sinan => "战国至汉代发明，天然磁铁矿琢磨成勺形，放置于青铜地盘。因勺底摩擦较大、天然磁石磁性较弱，典型指向误差约5°-20°。文献记载：'司南之杓，投之于地，其柢指南'（《韩非子·有度》）。",
            DeviceType::Zhinanyu => "北宋《武经总要》记载的军事指南工具，薄铁叶剪裁成鱼形，经地磁场磁化后浮于水面。水浮摩擦极小，但铁片剩磁较弱，典型误差约3°-10°。",
            DeviceType::HanLuopan => "宋代出现的旱罗盘，将磁针贯穿灯芯草或支承于尖枢轴上，配合二十四向方位盘。磁针细长形各向异性强、摩擦极小，典型误差约1°-5°，是古代航海的主要导航工具。",
            DeviceType::MemsCompass => "基于MEMS（微机电系统）技术的现代电子罗盘，通常采用各向异性磁阻(AMR)或隧穿磁阻(TMR)传感器，配合三轴加速度计倾角补偿、硬铁/软铁校准，典型精度0.5°-2°，消费级可达0.3°以内。",
        };
        String::from_str(text)
    }

    /// Every device type, in catalogue order.
    pub fn all() -> (devices: Vec<DeviceType>)
        ensures
            devices@ == spec_all_device_types(),
    {
        let mut devices: Vec<DeviceType> = Vec::new();
        devices.push(DeviceType::Sinan);
        devices.push(DeviceType::Zhinanyu);
        devices.push(DeviceType::HanLuopan);
        devices.push(DeviceType::MemsCompass);
        devices
    }
}

/// The catalogue lists each device type exactly once.
pub proof fn lemma_all_device_types_complete(dt: DeviceType)
    ensures
        spec_all_device_types().contains(dt),
        spec_all_device_types().no_duplicates(),
        spec_all_device_types().len() == 4,
{
    let s = spec_all_device_types();
    match dt {
        DeviceType::Sinan => assert(s[0] == dt),
        DeviceType::Zhinanyu => assert(s[1] == dt),
        DeviceType::HanLuopan => assert(s[2] == dt),
        DeviceType::MemsCompass => assert(s[3] == dt),
    }
}

/// The sources of environmental magnetic interference that the simulator can model.
#[derive(Clone, Copy, Debug, PartialEq, Eq, Hash, Structural)]
pub enum InterferenceType {
    FerrousObject,
    PowerLine,
    ElectronicDevice,
    BuildingRebar,
    Loudspeaker,
    LightningStorm,
}

/// Every interference type, in catalogue order.
pub open spec fn spec_all_interference_types() -> Seq<InterferenceType> {
    seq![
        InterferenceType::FerrousObject,
        InterferenceType::PowerLine,
        InterferenceType::ElectronicDevice,
        InterferenceType::BuildingRebar,
        InterferenceType::Loudspeaker,
        InterferenceType::LightningStorm,
    ]
}

/// The unit in which interference field strengths are reported.
pub open spec fn spec_measurement_unit() -> Seq<char> {
    "nT (纳特斯拉, 1nT = 10⁻⁹ T)"@
}

impl InterferenceType {
    pub open spec fn spec_display_name(self) -> Seq<char> {
        match self {
            InterferenceType::FerrousObject => "铁磁性物体（铁器）"@,
            InterferenceType::PowerLine => "高压输电线"@,
            InterferenceType::ElectronicDevice => "电子设备（手机/电脑）"@,
            InterferenceType::BuildingRebar => "建筑钢筋"@,
            InterferenceType::Loudspeaker => "扬声器/磁铁"@,
            InterferenceType::LightningStorm => "雷暴天气"@,
        }
    }

    pub open spec fn spec_data_source(self) -> Seq<char> {
        match self {
            InterferenceType::FerrousObject => "WHO Environmental EMF Standards(2007)；建筑磁性实测：Barton(1997)《Geomagnetism Vol.4》铁构件1m处2.8μT典型值"@,
            InterferenceType::PowerLine => "IEEE Std 644-1994；ICNIRP Guidelines(2010)；400kV高压输电线10m处典型值950nT"@,
            InterferenceType::ElectronicDevice => "FCC Part 15B；智能手机/笔记本10cm处实测数据：6.2μT典型值，来源：Schüz & Ahlbom(2008)Epidemiology"@,
            InterferenceType::BuildingRebar => "Reinforced concrete rebar magnetic signature实测：USGS Office of Ground Water(2001)，钢筋密集区1.45μT"@,
            InterferenceType::Loudspeaker => "永磁体NdFeB N35扬声器5cm处实测：85μT，来源：Sensors & Actuators A 129(2006)永磁体近场测量"@,
            InterferenceType::LightningStorm => "NOAA NLDN闪电定位网；单次回击地面磁场脉冲峰值1.8μT@5km，来源：Uman《The Lightning Discharge》"@,
        }
    }

    /// Human-readable name of the interference source.
    pub fn display_name(&self) -> (name: &'static str)
        ensures
            name@ == self.spec_display_name(),
    {
        match self {
            InterferenceType::FerrousObject => "铁磁性物体（铁器）",
            InterferenceType::PowerLine => "高压输电线",
            InterferenceType::ElectronicDevice => "电子设备（手机/电脑）",
            InterferenceType::BuildingRebar => "建筑钢筋",
            InterferenceType::Loudspeaker => "扬声器/磁铁",
            InterferenceType::LightningStorm => "雷暴天气",
        }
    }

    /// The unit of the reported field strengths; the same for every source.
    pub fn measurement_unit(&self) -> (unit: &'static str)
        ensures
            unit@ == spec_measurement_unit(),
    {
        "nT (纳特斯拉, 1nT = 10⁻⁹ T)"
    }

    /// The published measurement behind the source's typical field strength.
    pub fn data_source(&self) -> (source: &'static str)
        ensures
            source@ == self.spec_data_source(),
    {
        match self {
            InterferenceType::FerrousObject => "WHO Environmental EMF Standards(2007)；建筑磁性实测：Barton(1997)《Geomagnetism Vol.4》铁构件1m处2.8μT典型值",
            InterferenceType::PowerLine => "IEEE Std 644-1994；ICNIRP Guidelines(2010)；400kV高压输电线10m处典型值950nT",
            InterferenceType::ElectronicDevice => "FCC Part 15B；智能手机/笔记本10cm处实测数据：6.2μT典型值，来源：Schüz & Ahlbom(2008)Epidemiology",
            InterferenceType::BuildingRebar => "Reinforced concrete rebar magnetic signature实测：USGS Office of Ground Water(2001)，钢筋密集区1.45μT",
            InterferenceType::Loudspeaker => "永磁体NdFeB N35扬声器5cm处实测：85μT，来源：Sensors & Actuators A 129(2006)永磁体近场测量",
            InterferenceType::LightningStorm => "NOAA NLDN闪电定位网；单次回击地面磁场脉冲峰值1.8μT@5km，来源：Uman《The Lightning Discharge》",
        }
    }

    /// Every interference type, in catalogue order.
    pub fn all() -> (types: Vec<InterferenceType>)
        ensures
            types@ == spec_all_interference_types(),
    {
        let mut types: Vec<InterferenceType> = Vec::new();
        types.push(InterferenceType::FerrousObject);
        types.push(InterferenceType::PowerLine);
        types.push(InterferenceType::ElectronicDevice);
        types.push(InterferenceType::BuildingRebar);
        types.push(InterferenceType::Loudspeaker);
        types.push(InterferenceType::LightningStorm);
        types
    }
}

/// The interference catalogue lists each source type exactly once.
pub proof fn lemma_all_interference_types_complete(it: InterferenceType)
    ensures
        spec_all_interference_types().contains(it),
        spec_all_interference_types().no_duplicates(),
        spec_all_interference_types().len() == 6,
{
    let s = spec_all_interference_types();
    match it {
        InterferenceType::FerrousObject => assert(s[0] == it),
        InterferenceType::PowerLine => assert(s[1] == it),
        InterferenceType::ElectronicDevice => assert(s[2] == it),
        InterferenceType::BuildingRebar => assert(s[3] == it),
        InterferenceType::Loudspeaker => assert(s[4] == it),
        InterferenceType::LightningStorm => assert(s[5] == it),
    }
}

/// The devices a comparison runs on: the requested ones, in the order given, or the
/// whole catalogue when none were requested.
pub open spec fn spec_devices_to_compare(requested: Seq<DeviceType>) -> Seq<DeviceType> {
    if requested.len() == 0 {
        spec_all_device_types()
    } else {
        requested
    }
}

/// A comparison runs on exactly the requested devices, in the order given, when any are
/// requested, and on every device type otherwise; it never runs on no device.
pub proof fn lemma_devices_to_compare_cover_request(requested: Seq<DeviceType>, dt: DeviceType)
    ensures
        requested.len() > 0 ==> spec_devices_to_compare(requested) == requested,
        requested.len() == 0 ==> spec_devices_to_compare(requested).contains(dt),
        spec_devices_to_compare(requested).len() > 0,
{
    if requested.len() == 0 {
        lemma_all_device_types_complete(dt);
    }
}

/// Chooses the devices of a multi-device comparison: an empty request means every device.
pub fn devices_to_compare(requested: &Vec<DeviceType>) -> (devices: Vec<DeviceType>)
    ensures
        devices@ == spec_devices_to_compare(requested@),
{
    if requested.len() == 0 {
        return DeviceType::all();
    }
    let mut devices: Vec<DeviceType> = Vec::new();
    let mut i: usize = 0;
    while i < requested.len()
        invariant
            i <= requested.len(),
            devices@ == requested@.subrange(0, i as int),
        decreases requested.len() - i,
    {
        devices.push(requested[i]);
        i = i + 1;
    }
    devices
}

/// The source name recorded with reconstructed geomagnetic field data when none is given.
pub fn default_model_source() -> (source: String)
    ensures
        source@ == "CALS10K"@,
{
    String::from_str("CALS10K")
}

/// The side of the square grid of a vector-field request: the requested size, raised to
/// at least 3 and capped at 50.
pub fn vector_grid_size(requested: usize) -> (side: usize)
    ensures
        side == if requested < 3 {
            3
        } else if requested > 50 {
            50
        } else {
            requested
        },
{
    if requested < 3 {
        3
    } else if requested > 50 {
        50
    } else {
        requested
    }
}

} // verus!
