//! The configuration as a file has it, and what saving and loading come to.
//!
//! A [`Document`] holds what the file says, with nothing filled in. Loading
//! brings an older document to the current shape, and refuses one of a newer
//! version.
use vstd::prelude::*;
use crate::binding::{Action, ButtonId, GestureDirection};
use crate::config::{
    clamp_brightness, device_of_record, law_migration_is_idempotent, text_of, AppSettings,
    AppSettingsView, Config, ConfigView, DeviceConfig, DeviceView, Lighting, RawDeviceConfig,
    RecordView, SCHEMA_VERSION,
};
use crate::ordered_map::OrderedMap;

verus! {

/// A configuration as a file has it.
#[derive(Debug)]
pub struct Document {
    pub schema_version: u32,
    /// The preferences, where the file has any.
    pub app_settings: Option<AppSettings>,
    pub selected_device: Option<String>,
    pub devices: OrderedMap<String, RawDeviceConfig>,
}

/// What a [`Document`] stands for.
#[verifier::ext_equal]
pub struct DocumentView {
    pub schema_version: u32,
    pub app_settings: Option<AppSettingsView>,
    pub selected_device: Option<Seq<char>>,
    pub devices: Map<Seq<char>, RecordView>,
}

impl View for Document {
    type V = DocumentView;

    open spec fn view(&self) -> DocumentView {
        DocumentView {
            schema_version: self.schema_version,
            app_settings: match self.app_settings {
                Some(settings) => Some(settings@),
                None => None,
            },
            selected_device: text_of(self.selected_device),
            devices: self.devices@,
        }
    }
}

/// The record that is written for a device: its bindings in the current shape.
pub open spec fn record_of(device: DeviceView) -> RecordView {
    RecordView {
        identity: device.identity,
        bindings: device.bindings,
        button_bindings: Map::empty(),
        gesture_bindings: Map::empty(),
        per_app_bindings: device.per_app_bindings,
        dpi_presets: device.dpi_presets,
        dpi: device.dpi,
        lighting: device.lighting,
        smartshift: device.smartshift,
        invert_scroll: device.invert_scroll,
    }
}

/// The document that is written for a configuration. Preferences that are all at
/// their default are left out.
pub open spec fn saved(config: ConfigView) -> DocumentView {
    DocumentView {
        schema_version: config.schema_version,
        app_settings: if config.app_settings == AppSettingsView::standard() {
            None
        } else {
            Some(config.app_settings)
        },
        selected_device: config.selected_device,
        devices: config.devices.map_values(|device: DeviceView| record_of(device)),
    }
}

/// A lighting with its brightness within bounds.
pub open spec fn lighting_in_bounds(lighting: Option<Lighting>) -> Option<Lighting> {
    match lighting {
        Some(lighting) => Some(
            Lighting {
                brightness: if lighting.brightness < 100 {
                    lighting.brightness
                } else {
                    100
                },
                ..lighting
            },
        ),
        None => None,
    }
}

/// A device with its brightness within bounds.
pub open spec fn in_bounds(device: DeviceView) -> DeviceView {
    DeviceView { lighting: lighting_in_bounds(device.lighting), ..device }
}

/// The configuration that a document is read as.
pub open spec fn loaded(document: DocumentView) -> ConfigView {
    ConfigView {
        schema_version: SCHEMA_VERSION,
        app_settings: match document.app_settings {
            Some(settings) => settings,
            None => AppSettingsView::standard(),
        },
        selected_device: document.selected_device,
        devices: document.devices.map_values(
            |record: RecordView| in_bounds(device_of_record(record)),
        ),
    }
}

fn to_record(device: &DeviceConfig) -> (r: RawDeviceConfig)
    ensures
        r@ == record_of(device@),
{
    let device = device.clone();
    RawDeviceConfig {
        identity: device.identity,
        bindings: device.bindings,
        button_bindings: OrderedMap::new(),
        gesture_bindings: OrderedMap::new(),
        per_app_bindings: device.per_app_bindings,
        dpi_presets: device.dpi_presets,
        dpi: device.dpi,
        lighting: device.lighting,
        smartshift: device.smartshift,
        invert_scroll: device.invert_scroll,
    }
}

fn from_record(record: RawDeviceConfig) -> (r: DeviceConfig)
    ensures
        r@ == in_bounds(device_of_record(record@)),
{
    let mut device = DeviceConfig::from(record);
    if let Some(lighting) = device.lighting {
        let mut lighting = lighting;
        lighting.brightness = clamp_brightness(lighting.brightness);
        device.lighting = Some(lighting);
    }
    device
}

impl Config {
    /// The document to write for this configuration.
    #[must_use]
    pub fn to_document(&self) -> (r: Document)
        ensures
            r@ == saved(self@),
    {
        let ghost target = saved(self@).devices;
        let mut devices: OrderedMap<String, RawDeviceConfig> = OrderedMap::new();
        let n: usize = self.devices.len();
        let mut i: usize = 0;
        while i < n
            invariant
                i <= n,
                n == self.devices.keys().len(),
                self.devices.keys_in_order(),
                target == self@.devices.map_values(|device: DeviceView| record_of(device)),
                forall|key: Seq<char>| #[trigger]
                    devices@.contains_key(key) <==> exists|j: int|
                        0 <= j < i && #[trigger] self.devices.keys()[j] == key,
                forall|key: Seq<char>| #[trigger]
                    devices@.contains_key(key) ==> target.contains_key(key) && devices@[key]
                        == target[key],
            decreases n - i,
        {
            let (key, device) = self.devices.entry_at(i);
            let ghost before = devices@;
            devices.insert(key.clone(), to_record(device));
            assert forall|k: Seq<char>| #[trigger] devices@.contains_key(k) <==> exists|j: int|
                0 <= j < i + 1 && #[trigger] self.devices.keys()[j] == k by {
                assert(before.contains_key(k) <==> exists|j: int|
                    0 <= j < i && #[trigger] self.devices.keys()[j] == k);
                assert(self.devices.keys()[i as int] == key@);
            }
            i = i + 1;
        }
        assert forall|key: Seq<char>| target.contains_key(key) implies #[trigger] devices@.contains_key(
            key,
        ) by {
            assert(self.devices.keys().to_set().contains(key));
            let j = choose|j: int| 0 <= j < n && self.devices.keys()[j] == key;
            assert(self.devices.keys()[j] == key);
        }
        assert(devices@ =~= target);
        Document {
            schema_version: self.schema_version,
            app_settings: if self.app_settings.is_default() {
                None
            } else {
                Some(self.app_settings.clone())
            },
            selected_device: self.selected_device.clone(),
            devices,
        }
    }

    /// The configuration that a document is read as, or the default one where there
    /// is no document. It is stamped with the current version, so that saving it
    /// writes the current shape.
    ///
    /// A document of a newer version is refused with its version, rather than read
    /// and later written back without what it says beyond this version.
    pub fn from_document(document: Option<Document>) -> (r: Result<Config, u32>)
        ensures
            match document {
                None => r matches Ok(config) && config@ == ConfigView::standard(),
                Some(document) => if document.schema_version > SCHEMA_VERSION {
                    r == Err::<Config, u32>(document.schema_version)
                } else {
                    r matches Ok(config) && config@ == loaded(document@)
                },
            },
    {
        let document = match document {
            None => {
                return Ok(Config::default());
            },
            Some(document) => document,
        };
        if document.schema_version > SCHEMA_VERSION {
            return Err(document.schema_version);
        }
        let ghost given = document@;
        let ghost target = loaded(given).devices;
        let mut records = document.devices;
        let mut devices: OrderedMap<String, DeviceConfig> = OrderedMap::new();
        let mut n: usize = records.len();
        while n > 0
            invariant
                n == records.keys().len(),
                n == records@.dom().len(),
                records.keys_in_order(),
                target == given.devices.map_values(
                    |record: RecordView| in_bounds(device_of_record(record)),
                ),
                forall|key: Seq<char>| #[trigger]
                    records@.contains_key(key) ==> given.devices.contains_key(key) && records@[key]
                        == given.devices[key],
                forall|key: Seq<char>| #[trigger]
                    devices@.contains_key(key) <==> given.devices.contains_key(key)
                        && !records@.contains_key(key),
                forall|key: Seq<char>| #[trigger]
                    devices@.contains_key(key) ==> devices@[key] == target[key],
            decreases n,
        {
            let (last, _) = records.entry_at(n - 1);
            let key = last.clone();
            if let Some(record) = records.remove(key.as_str()) {
                devices.insert(key, from_record(record));
            }
            n = records.len();
        }
        proof {
            assert(records@.dom() =~= Set::empty());
            assert forall|key: Seq<char>| target.contains_key(
                key,
            ) implies #[trigger] devices@.contains_key(key) by {
                assert(!records@.dom().contains(key));
            }
            assert(devices@ =~= target);
        }
        Ok(
            Config {
                schema_version: SCHEMA_VERSION,
                app_settings: match document.app_settings {
                    Some(settings) => settings,
                    None => AppSettings::default(),
                },
                selected_device: document.selected_device,
                devices,
            },
        )
    }
}

// ---------------------------------------------------------------------------
// Laws
// ---------------------------------------------------------------------------

/// What was saved reads back: every preference, the selection and every device, up
/// to a brightness that is out of bounds, and under the current version.
pub proof fn law_saved_config_reads_back(config: ConfigView, key: Seq<char>)
    ensures
        loaded(saved(config)).app_settings == config.app_settings,
        loaded(saved(config)).selected_device == config.selected_device,
        loaded(saved(config)).schema_version == SCHEMA_VERSION,
        loaded(saved(config)).devices.dom() == config.devices.dom(),
        loaded(saved(config)).device(key) == in_bounds(config.device(key)),
{
    let back = loaded(saved(config));
    assert(back.devices.dom() =~= config.devices.dom());
    let device = config.device(key);
    law_migration_is_idempotent(device.bindings, Map::empty(), Map::empty());
    assert(device_of_record(record_of(device)) =~= device);
}

/// Saving and loading change nothing about a configuration that was loaded once.
pub proof fn law_reload_changes_nothing(document: DocumentView)
    ensures
        loaded(saved(loaded(document))) == loaded(document),
{
    let config = loaded(document);
    let again = loaded(saved(config));
    assert forall|key: Seq<char>| config.devices.contains_key(key) implies again.devices[key]
        == config.devices[key] by {
        law_saved_config_reads_back(config, key);
    }
    law_saved_config_reads_back(config, Seq::empty());
    assert(again.devices =~= config.devices);
}

/// A saved device has no version 1 fields any more.
pub proof fn law_saved_shape_is_current(config: ConfigView, key: Seq<char>)
    requires
        config.devices.contains_key(key),
    ensures
        saved(config).devices.contains_key(key),
        saved(config).devices[key].button_bindings == Map::<ButtonId, Action>::empty(),
        saved(config).devices[key].gesture_bindings == Map::<GestureDirection, Action>::empty(),
{
}

/// A document shows all that it holds.
pub proof fn law_document_shows_every_field(document: Document)
    ensures
        document@.schema_version == document.schema_version,
        document@.devices == document.devices@,
        document@.selected_device == match document.selected_device {
            Some(key) => Some(key@),
            None => None,
        },
        document@.app_settings == match document.app_settings {
            Some(settings) => Some(settings@),
            None => None,
        },
{
}

/// Loading carries over every setting of every device, with a brightness above 100 as
/// 100. It carries over the selection and the preferences, with the standard ones where
/// the document has none, and stamps the current version.
pub proof fn law_loading_keeps_settings(document: DocumentView, key: Seq<char>)
    ensures
        loaded(document).schema_version == 3,
        loaded(document).selected_device == document.selected_device,
        document.app_settings matches Some(settings) ==> loaded(document).app_settings == settings,
        document.app_settings is None ==> loaded(document).app_settings
            == AppSettingsView::standard(),
        loaded(document).devices.contains_key(key) <==> document.devices.contains_key(key),
        document.devices.contains_key(key) ==> ({
            let record = document.devices[key];
            let device = loaded(document).devices[key];
            &&& device.identity == record.identity
            &&& device.per_app_bindings == record.per_app_bindings
            &&& device.dpi_presets == record.dpi_presets
            &&& device.dpi == record.dpi
            &&& device.smartshift == record.smartshift
            &&& device.invert_scroll == record.invert_scroll
            &&& device.bindings == device_of_record(record).bindings
            &&& device.lighting is Some <==> record.lighting is Some
            &&& record.lighting is Some ==> {
                let given = record.lighting->Some_0;
                let lighting = device.lighting->Some_0;
                &&& lighting.enabled == given.enabled
                &&& lighting.color == given.color
                &&& lighting.brightness <= 100
                &&& given.brightness <= 100 ==> lighting.brightness == given.brightness
                &&& given.brightness > 100 ==> lighting.brightness == 100
            }
        }),
{
}

/// Saving writes every setting of every device, the selection, the version and, where
/// they differ from the standard ones, the preferences.
pub proof fn law_saving_keeps_settings(config: ConfigView, key: Seq<char>)
    ensures
        saved(config).schema_version == config.schema_version,
        saved(config).selected_device == config.selected_device,
        saved(config).app_settings is None <==> config.app_settings == AppSettingsView::standard(),
        saved(config).app_settings matches Some(settings) ==> settings == config.app_settings,
        saved(config).devices.contains_key(key) <==> config.devices.contains_key(key),
        config.devices.contains_key(key) ==> ({
            let device = config.devices[key];
            let record = saved(config).devices[key];
            &&& record.identity == device.identity
            &&& record.bindings == device.bindings
            &&& record.per_app_bindings == device.per_app_bindings
            &&& record.dpi_presets == device.dpi_presets
            &&& record.dpi == device.dpi
            &&& record.lighting == device.lighting
            &&& record.smartshift == device.smartshift
            &&& record.invert_scroll == device.invert_scroll
        }),
{
}

/// A device whose brightness is in bounds reads back exactly as it was saved.
pub proof fn law_saved_device_reads_back(config: ConfigView, key: Seq<char>)
    requires
        config.device(key).lighting matches Some(lighting) ==> lighting.brightness <= 100,
    ensures
        loaded(saved(config)).device(key) == config.device(key),
{
    law_saved_config_reads_back(config, key);
}

} // verus!
