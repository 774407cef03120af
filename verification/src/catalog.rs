//! The identifier catalog: the immutable table mapping 6-byte object
//! identifiers to domain metadata.
//!
//! Each known quantity has a name ([`ObiNames`]), and each name owns one
//! catalog record ([`Obi`]) holding the identifier bytes, a human-readable
//! display name, a stable metric key, and the export flag. The catalog as
//! a whole is an immutable table ([`Catalog`]) built once at startup and
//! shared read-only; its well-formedness (one record per identifier,
//! metric keys of exportable records unique across the whole table) is
//! proved once and carried by every lookup.
//!
//! The table below is the single canonical mapping: in particular, the
//! current active power quantity is identified by `01 00 10 07 00 FF`,
//! and exactly the four meter-reading and active-energy totals are
//! exported.

use vstd::prelude::*;

verus! {

/// The names of all object identifiers this system knows.
#[derive(Clone, Copy, Debug, PartialEq, Eq, Structural)]
pub enum ObiNames {
    DeviceIdentification,
    MeterReadingTotal,
    MeterReadingTariff1,
    MeterReadingTariff2,
    TotalMeterReading,
    ActivePowerTotal,
    ActivePowerCurrent,
    ReactivePowerL1,
    CurrentL1,
    VoltageL1,
    ActivePowerL1,
    ReactivePowerL2,
    CurrentL2,
    VoltageL2,
    ActivePowerL2,
    ReactivePowerL3,
    CurrentL3,
    VoltageL3,
    ActivePowerL3,
    PhaseDeviationL1L2,
    PhaseDeviationL1L3,
    PhaseDeviationL1,
    PhaseDeviationL2,
    PhaseDeviationL3,
    ChipTemperatureCurrent,
    ChipTemperatureMin,
    ChipTemperatureMax,
    ChipTemperatureAvg,
    VoltageMin,
    VoltageMax,
    NetworkFrequency,
    ManufacturerIdentification,
    PublicKey,
}

/// One catalog record: a 6-byte object identifier plus its metadata.
#[derive(Clone, Copy, Debug)]
pub struct Obi {
    /// The object identifier, big-endian, globally unique in the catalog.
    pub id: [u8; 6],
    /// Human-readable description of the quantity.
    pub pretty_name: &'static str,
    /// Stable short key under which the quantity is exported as a gauge.
    pub metric_name: &'static str,
    /// Whether a gauge is registered for this quantity.
    pub exportable: bool,
}

impl ObiNames {
    /// The identifier bytes of this name's record.
    pub open spec fn spec_id(self) -> Seq<u8> {
        match self {
            ObiNames::DeviceIdentification => seq![0x01u8, 0x00u8, 0x00u8, 0x00u8, 0x09u8, 0xffu8],
            ObiNames::MeterReadingTotal => seq![0x01u8, 0x00u8, 0x01u8, 0x08u8, 0x00u8, 0xffu8],
            ObiNames::MeterReadingTariff1 => seq![0x01u8, 0x00u8, 0x01u8, 0x08u8, 0x01u8, 0xffu8],
            ObiNames::MeterReadingTariff2 => seq![0x01u8, 0x00u8, 0x01u8, 0x08u8, 0x02u8, 0xffu8],
            ObiNames::TotalMeterReading => seq![0x01u8, 0x00u8, 0x01u8, 0x11u8, 0x00u8, 0xffu8],
            ObiNames::ActivePowerTotal => seq![0x01u8, 0x00u8, 0x02u8, 0x08u8, 0x00u8, 0xffu8],
            ObiNames::ActivePowerCurrent => seq![0x01u8, 0x00u8, 0x10u8, 0x07u8, 0x00u8, 0xffu8],
            ObiNames::ReactivePowerL1 => seq![0x01u8, 0x00u8, 0x17u8, 0x07u8, 0x00u8, 0xffu8],
            ObiNames::CurrentL1 => seq![0x01u8, 0x00u8, 0x1fu8, 0x07u8, 0x00u8, 0xffu8],
            ObiNames::VoltageL1 => seq![0x01u8, 0x00u8, 0x20u8, 0x07u8, 0x00u8, 0xffu8],
            ObiNames::ActivePowerL1 => seq![0x01u8, 0x00u8, 0x24u8, 0x07u8, 0x00u8, 0xffu8],
            ObiNames::ReactivePowerL2 => seq![0x01u8, 0x00u8, 0x2bu8, 0x07u8, 0x00u8, 0xffu8],
            ObiNames::CurrentL2 => seq![0x01u8, 0x00u8, 0x33u8, 0x07u8, 0x00u8, 0xffu8],
            ObiNames::VoltageL2 => seq![0x01u8, 0x00u8, 0x34u8, 0x07u8, 0x00u8, 0xffu8],
            ObiNames::ActivePowerL2 => seq![0x01u8, 0x00u8, 0x38u8, 0x07u8, 0x00u8, 0xffu8],
            ObiNames::ReactivePowerL3 => seq![0x01u8, 0x00u8, 0x3fu8, 0x07u8, 0x00u8, 0xffu8],
            ObiNames::CurrentL3 => seq![0x01u8, 0x00u8, 0x47u8, 0x07u8, 0x00u8, 0xffu8],
            ObiNames::VoltageL3 => seq![0x01u8, 0x00u8, 0x48u8, 0x07u8, 0x00u8, 0xffu8],
            ObiNames::ActivePowerL3 => seq![0x01u8, 0x00u8, 0x4cu8, 0x07u8, 0x00u8, 0xffu8],
            ObiNames::PhaseDeviationL1L2 => seq![0x01u8, 0x00u8, 0x51u8, 0x07u8, 0x01u8, 0xffu8],
            ObiNames::PhaseDeviationL1L3 => seq![0x01u8, 0x00u8, 0x51u8, 0x07u8, 0x02u8, 0xffu8],
            ObiNames::PhaseDeviationL1 => seq![0x01u8, 0x00u8, 0x51u8, 0x07u8, 0x04u8, 0xffu8],
            ObiNames::PhaseDeviationL2 => seq![0x01u8, 0x00u8, 0x51u8, 0x07u8, 0x0fu8, 0xffu8],
            ObiNames::PhaseDeviationL3 => seq![0x01u8, 0x00u8, 0x51u8, 0x07u8, 0x1au8, 0xffu8],
            ObiNames::ChipTemperatureCurrent => seq![0x01u8, 0x00u8, 0x60u8, 0x32u8, 0x00u8, 0x02u8],
            ObiNames::ChipTemperatureMin => seq![0x01u8, 0x00u8, 0x60u8, 0x32u8, 0x00u8, 0x03u8],
            ObiNames::ChipTemperatureMax => seq![0x01u8, 0x00u8, 0x60u8, 0x32u8, 0x00u8, 0x04u8],
            ObiNames::ChipTemperatureAvg => seq![0x01u8, 0x00u8, 0x60u8, 0x32u8, 0x00u8, 0x05u8],
            ObiNames::VoltageMin => seq![0x01u8, 0x00u8, 0x60u8, 0x32u8, 0x03u8, 0x03u8],
            ObiNames::VoltageMax => seq![0x01u8, 0x00u8, 0x60u8, 0x32u8, 0x03u8, 0x04u8],
            ObiNames::NetworkFrequency => seq![0x01u8, 0x00u8, 0x0eu8, 0x07u8, 0x00u8, 0xffu8],
            ObiNames::ManufacturerIdentification => seq![
                0x81u8,
                0x81u8,
                0xc7u8,
                0x82u8,
                0x03u8,
                0xffu8,
            ],
            ObiNames::PublicKey => seq![0x81u8, 0x81u8, 0xc7u8, 0x82u8, 0x05u8, 0xffu8],
        }
    }

    /// The display name of this name's record.
    pub open spec fn spec_pretty_name(self) -> Seq<char> {
        match self {
            ObiNames::DeviceIdentification => "Geräteeinzelidentifikation"@,
            ObiNames::MeterReadingTotal => "Zählerstand Total"@,
            ObiNames::MeterReadingTariff1 => "Zählerstand Tarif 1"@,
            ObiNames::MeterReadingTariff2 => "Zählerstand Tarif 2"@,
            ObiNames::TotalMeterReading => "Total-Zählerstand"@,
            ObiNames::ActivePowerTotal => "Wirkenergie Total"@,
            ObiNames::ActivePowerCurrent => "aktuelle Wirkleistung"@,
            ObiNames::ReactivePowerL1 => "Momentanblindleistung L1"@,
            ObiNames::CurrentL1 => "Strom L1"@,
            ObiNames::VoltageL1 => "Spannung L1"@,
            ObiNames::ActivePowerL1 => "Wirkleistung L1"@,
            ObiNames::ReactivePowerL2 => "Momentanblindleistung L2"@,
            ObiNames::CurrentL2 => "Strom L2"@,
            ObiNames::VoltageL2 => "Spannung L2"@,
            ObiNames::ActivePowerL2 => "Wirkleistung L2"@,
            ObiNames::ReactivePowerL3 => "Momentanblindleistung L3"@,
            ObiNames::CurrentL3 => "Strom L3"@,
            ObiNames::VoltageL3 => "Spannung L3"@,
            ObiNames::ActivePowerL3 => "Wirkleistung L3"@,
            ObiNames::PhaseDeviationL1L2 => "Phasenausgleich L1-L2"@,
            ObiNames::PhaseDeviationL1L3 => "Phasenausgleich L1-L3"@,
            ObiNames::PhaseDeviationL1 => "Phasenausgleich L1"@,
            ObiNames::PhaseDeviationL2 => "Phasenausgleich L2"@,
            ObiNames::PhaseDeviationL3 => "Phasenausgleich L3"@,
            ObiNames::ChipTemperatureCurrent => "Chip-Temperatur aktuell"@,
            ObiNames::ChipTemperatureMin => "Chip-Temperatur minimal"@,
            ObiNames::ChipTemperatureMax => "Chip-Temperatur maximal"@,
            ObiNames::ChipTemperatureAvg => "Chip-Temperatur durchschnittlich"@,
            ObiNames::VoltageMin => "Spannung minimal"@,
            ObiNames::VoltageMax => "Spannung maximal"@,
            ObiNames::NetworkFrequency => "Netzfrequenz"@,
            ObiNames::ManufacturerIdentification => "Herstelleridentifikation"@,
            ObiNames::PublicKey => "Öffentlicher Schlüssel"@,
        }
    }

    /// The metric key of this name's record.
    pub open spec fn spec_metric_key(self) -> Seq<char> {
        match self {
            ObiNames::DeviceIdentification => "Geräteeinzelidentifikation"@,
            ObiNames::MeterReadingTotal => "meterreadingtotal"@,
            ObiNames::MeterReadingTariff1 => "meterreadingtariff1"@,
            ObiNames::MeterReadingTariff2 => "meterreadingtariff2"@,
            ObiNames::TotalMeterReading => "totalmeterreading"@,
            ObiNames::ActivePowerTotal => "activepowertotal"@,
            ObiNames::ActivePowerCurrent => "activepowercurrent"@,
            ObiNames::ReactivePowerL1 => "reactivepowerl1"@,
            ObiNames::CurrentL1 => "currentl1"@,
            ObiNames::VoltageL1 => "voltagel1"@,
            ObiNames::ActivePowerL1 => "activepowerl1"@,
            ObiNames::ReactivePowerL2 => "reactivepowerl2"@,
            ObiNames::CurrentL2 => "currentl2"@,
            ObiNames::VoltageL2 => "voltagel2"@,
            ObiNames::ActivePowerL2 => "activepowerl2"@,
            ObiNames::ReactivePowerL3 => "reactivepowerl3"@,
            ObiNames::CurrentL3 => "currentl3"@,
            ObiNames::VoltageL3 => "voltagel3"@,
            ObiNames::ActivePowerL3 => "activepowerl3"@,
            ObiNames::PhaseDeviationL1L2 => "phasedeviationl1l2"@,
            ObiNames::PhaseDeviationL1L3 => "phasedeviationl1l3"@,
            ObiNames::PhaseDeviationL1 => "phasedeviationl1"@,
            ObiNames::PhaseDeviationL2 => "phasedeviationl2"@,
            ObiNames::PhaseDeviationL3 => "phasedeviationl3"@,
            ObiNames::ChipTemperatureCurrent => "chiptemperaturecurrent"@,
            ObiNames::ChipTemperatureMin => "chiptemperaturemin"@,
            ObiNames::ChipTemperatureMax => "chiptemperaturemax"@,
            ObiNames::ChipTemperatureAvg => "chiptemperatureavg"@,
            ObiNames::VoltageMin => "voltagemin"@,
            ObiNames::VoltageMax => "voltagemax"@,
            ObiNames::NetworkFrequency => "networkfrequency"@,
            ObiNames::ManufacturerIdentification => "manufactureridentification"@,
            ObiNames::PublicKey => "publickey"@,
        }
    }

    /// Whether this name's quantity is exported as a gauge.
    pub open spec fn spec_exportable(self) -> bool {
        match self {
            ObiNames::MeterReadingTotal => true,
            ObiNames::MeterReadingTariff1 => true,
            ObiNames::MeterReadingTariff2 => true,
            ObiNames::ActivePowerTotal => true,
            _ => false,
        }
    }

    /// The catalog record owned by this name.
    pub fn obi(&self) -> (r: Obi)
        ensures
            r.id@ == self.spec_id(),
            r.pretty_name@ == self.spec_pretty_name(),
            r.metric_name@ == self.spec_metric_key(),
            r.exportable == self.spec_exportable(),
    {
        let r = match self {
            ObiNames::DeviceIdentification => Obi {
                id: [0x01, 0x00, 0x00, 0x00, 0x09, 0xff],
                pretty_name: "Geräteeinzelidentifikation",
                metric_name: "Geräteeinzelidentifikation",
                exportable: false,
            },
            ObiNames::MeterReadingTotal => Obi {
                id: [0x01, 0x00, 0x01, 0x08, 0x00, 0xff],
                pretty_name: "Zählerstand Total",
                metric_name: "meterreadingtotal",
                exportable: true,
            },
            ObiNames::MeterReadingTariff1 => Obi {
                id: [0x01, 0x00, 0x01, 0x08, 0x01, 0xff],
                pretty_name: "Zählerstand Tarif 1",
                metric_name: "meterreadingtariff1",
                exportable: true,
            },
            ObiNames::MeterReadingTariff2 => Obi {
                id: [0x01, 0x00, 0x01, 0x08, 0x02, 0xff],
                pretty_name: "Zählerstand Tarif 2",
                metric_name: "meterreadingtariff2",
                exportable: true,
            },
            ObiNames::TotalMeterReading => Obi {
                id: [0x01, 0x00, 0x01, 0x11, 0x00, 0xff],
                pretty_name: "Total-Zählerstand",
                metric_name: "totalmeterreading",
                exportable: false,
            },
            ObiNames::ActivePowerTotal => Obi {
                id: [0x01, 0x00, 0x02, 0x08, 0x00, 0xff],
                pretty_name: "Wirkenergie Total",
                metric_name: "activepowertotal",
                exportable: true,
            },
            ObiNames::ActivePowerCurrent => Obi {
                id: [0x01, 0x00, 0x10, 0x07, 0x00, 0xff],
                pretty_name: "aktuelle Wirkleistung",
                metric_name: "activepowercurrent",
                exportable: false,
            },
            ObiNames::ReactivePowerL1 => Obi {
                id: [0x01, 0x00, 0x17, 0x07, 0x00, 0xff],
                pretty_name: "Momentanblindleistung L1",
                metric_name: "reactivepowerl1",
                exportable: false,
            },
            ObiNames::CurrentL1 => Obi {
                id: [0x01, 0x00, 0x1f, 0x07, 0x00, 0xff],
                pretty_name: "Strom L1",
                metric_name: "currentl1",
                exportable: false,
            },
            ObiNames::VoltageL1 => Obi {
                id: [0x01, 0x00, 0x20, 0x07, 0x00, 0xff],
                pretty_name: "Spannung L1",
                metric_name: "voltagel1",
                exportable: false,
            },
            ObiNames::ActivePowerL1 => Obi {
                id: [0x01, 0x00, 0x24, 0x07, 0x00, 0xff],
                pretty_name: "Wirkleistung L1",
                metric_name: "activepowerl1",
                exportable: false,
            },
            ObiNames::ReactivePowerL2 => Obi {
                id: [0x01, 0x00, 0x2b, 0x07, 0x00, 0xff],
                pretty_name: "Momentanblindleistung L2",
                metric_name: "reactivepowerl2",
                exportable: false,
            },
            ObiNames::CurrentL2 => Obi {
                id: [0x01, 0x00, 0x33, 0x07, 0x00, 0xff],
                pretty_name: "Strom L2",
                metric_name: "currentl2",
                exportable: false,
            },
            ObiNames::VoltageL2 => Obi {
                id: [0x01, 0x00, 0x34, 0x07, 0x00, 0xff],
                pretty_name: "Spannung L2",
                metric_name: "voltagel2",
                exportable: false,
            },
            ObiNames::ActivePowerL2 => Obi {
                id: [0x01, 0x00, 0x38, 0x07, 0x00, 0xff],
                pretty_name: "Wirkleistung L2",
                metric_name: "activepowerl2",
                exportable: false,
            },
            ObiNames::ReactivePowerL3 => Obi {
                id: [0x01, 0x00, 0x3f, 0x07, 0x00, 0xff],
                pretty_name: "Momentanblindleistung L3",
                metric_name: "reactivepowerl3",
                exportable: false,
            },
            ObiNames::CurrentL3 => Obi {
                id: [0x01, 0x00, 0x47, 0x07, 0x00, 0xff],
                pretty_name: "Strom L3",
                metric_name: "currentl3",
                exportable: false,
            },
            ObiNames::VoltageL3 => Obi {
                id: [0x01, 0x00, 0x48, 0x07, 0x00, 0xff],
                pretty_name: "Spannung L3",
                metric_name: "voltagel3",
                exportable: false,
            },
            ObiNames::ActivePowerL3 => Obi {
                id: [0x01, 0x00, 0x4c, 0x07, 0x00, 0xff],
                pretty_name: "Wirkleistung L3",
                metric_name: "activepowerl3",
                exportable: false,
            },
            ObiNames::PhaseDeviationL1L2 => Obi {
                id: [0x01, 0x00, 0x51, 0x07, 0x01, 0xff],
                pretty_name: "Phasenausgleich L1-L2",
                metric_name: "phasedeviationl1l2",
                exportable: false,
            },
            ObiNames::PhaseDeviationL1L3 => Obi {
                id: [0x01, 0x00, 0x51, 0x07, 0x02, 0xff],
                pretty_name: "Phasenausgleich L1-L3",
                metric_name: "phasedeviationl1l3",
                exportable: false,
            },
            ObiNames::PhaseDeviationL1 => Obi {
                id: [0x01, 0x00, 0x51, 0x07, 0x04, 0xff],
                pretty_name: "Phasenausgleich L1",
                metric_name: "phasedeviationl1",
                exportable: false,
            },
            ObiNames::PhaseDeviationL2 => Obi {
                id: [0x01, 0x00, 0x51, 0x07, 0x0f, 0xff],
                pretty_name: "Phasenausgleich L2",
                metric_name: "phasedeviationl2",
                exportable: false,
            },
            ObiNames::PhaseDeviationL3 => Obi {
                id: [0x01, 0x00, 0x51, 0x07, 0x1a, 0xff],
                pretty_name: "Phasenausgleich L3",
                metric_name: "phasedeviationl3",
                exportable: false,
            },
            ObiNames::ChipTemperatureCurrent => Obi {
                id: [0x01, 0x00, 0x60, 0x32, 0x00, 0x02],
                pretty_name: "Chip-Temperatur aktuell",
                metric_name: "chiptemperaturecurrent",
                exportable: false,
            },
            ObiNames::ChipTemperatureMin => Obi {
                id: [0x01, 0x00, 0x60, 0x32, 0x00, 0x03],
                pretty_name: "Chip-Temperatur minimal",
                metric_name: "chiptemperaturemin",
                exportable: false,
            },
            ObiNames::ChipTemperatureMax => Obi {
                id: [0x01, 0x00, 0x60, 0x32, 0x00, 0x04],
                pretty_name: "Chip-Temperatur maximal",
                metric_name: "chiptemperaturemax",
                exportable: false,
            },
            ObiNames::ChipTemperatureAvg => Obi {
                id: [0x01, 0x00, 0x60, 0x32, 0x00, 0x05],
                pretty_name: "Chip-Temperatur durchschnittlich",
                metric_name: "chiptemperatureavg",
                exportable: false,
            },
            ObiNames::VoltageMin => Obi {
                id: [0x01, 0x00, 0x60, 0x32, 0x03, 0x03],
                pretty_name: "Spannung minimal",
                metric_name: "voltagemin",
                exportable: false,
            },
            ObiNames::VoltageMax => Obi {
                id: [0x01, 0x00, 0x60, 0x32, 0x03, 0x04],
                pretty_name: "Spannung maximal",
                metric_name: "voltagemax",
                exportable: false,
            },
            ObiNames::NetworkFrequency => Obi {
                id: [0x01, 0x00, 0x0e, 0x07, 0x00, 0xff],
                pretty_name: "Netzfrequenz",
                metric_name: "networkfrequency",
                exportable: false,
            },
            ObiNames::ManufacturerIdentification => Obi {
                id: [0x81, 0x81, 0xc7, 0x82, 0x03, 0xff],
                pretty_name: "Herstelleridentifikation",
                metric_name: "manufactureridentification",
                exportable: false,
            },
            ObiNames::PublicKey => Obi {
                id: [0x81, 0x81, 0xc7, 0x82, 0x05, 0xff],
                pretty_name: "Öffentlicher Schlüssel",
                metric_name: "publickey",
                exportable: false,
            },
        };
        proof {
            assert(r.id@ =~= self.spec_id());
        }
        r
    }

    /// The identifier bytes of this name's record.
    pub fn id(&self) -> (r: [u8; 6])
        ensures
            r@ == self.spec_id(),
    {
        self.obi().id
    }
}

/// All catalog names, in table order.
pub open spec fn catalog_names() -> Seq<ObiNames> {
    seq![
        ObiNames::DeviceIdentification,
        ObiNames::MeterReadingTotal,
        ObiNames::MeterReadingTariff1,
        ObiNames::MeterReadingTariff2,
        ObiNames::TotalMeterReading,
        ObiNames::ActivePowerTotal,
        ObiNames::ActivePowerCurrent,
        ObiNames::ReactivePowerL1,
        ObiNames::CurrentL1,
        ObiNames::VoltageL1,
        ObiNames::ActivePowerL1,
        ObiNames::ReactivePowerL2,
        ObiNames::CurrentL2,
        ObiNames::VoltageL2,
        ObiNames::ActivePowerL2,
        ObiNames::ReactivePowerL3,
        ObiNames::CurrentL3,
        ObiNames::VoltageL3,
        ObiNames::ActivePowerL3,
        ObiNames::PhaseDeviationL1L2,
        ObiNames::PhaseDeviationL1L3,
        ObiNames::PhaseDeviationL1,
        ObiNames::PhaseDeviationL2,
        ObiNames::PhaseDeviationL3,
        ObiNames::ChipTemperatureCurrent,
        ObiNames::ChipTemperatureMin,
        ObiNames::ChipTemperatureMax,
        ObiNames::ChipTemperatureAvg,
        ObiNames::VoltageMin,
        ObiNames::VoltageMax,
        ObiNames::NetworkFrequency,
        ObiNames::ManufacturerIdentification,
        ObiNames::PublicKey,
    ]
}

/// Whether record `e` is the one owned by name `n`.
pub open spec fn entry_of(n: ObiNames, e: Obi) -> bool {
    &&& e.id@ == n.spec_id()
    &&& e.pretty_name@ == n.spec_pretty_name()
    &&& e.metric_name@ == n.spec_metric_key()
    &&& e.exportable == n.spec_exportable()
}

/// The position of a name in the table, inverse to `catalog_names()`.
pub open spec fn name_index(n: ObiNames) -> int {
    match n {
        ObiNames::DeviceIdentification => 0,
        ObiNames::MeterReadingTotal => 1,
        ObiNames::MeterReadingTariff1 => 2,
        ObiNames::MeterReadingTariff2 => 3,
        ObiNames::TotalMeterReading => 4,
        ObiNames::ActivePowerTotal => 5,
        ObiNames::ActivePowerCurrent => 6,
        ObiNames::ReactivePowerL1 => 7,
        ObiNames::CurrentL1 => 8,
        ObiNames::VoltageL1 => 9,
        ObiNames::ActivePowerL1 => 10,
        ObiNames::ReactivePowerL2 => 11,
        ObiNames::CurrentL2 => 12,
        ObiNames::VoltageL2 => 13,
        ObiNames::ActivePowerL2 => 14,
        ObiNames::ReactivePowerL3 => 15,
        ObiNames::CurrentL3 => 16,
        ObiNames::VoltageL3 => 17,
        ObiNames::ActivePowerL3 => 18,
        ObiNames::PhaseDeviationL1L2 => 19,
        ObiNames::PhaseDeviationL1L3 => 20,
        ObiNames::PhaseDeviationL1 => 21,
        ObiNames::PhaseDeviationL2 => 22,
        ObiNames::PhaseDeviationL3 => 23,
        ObiNames::ChipTemperatureCurrent => 24,
        ObiNames::ChipTemperatureMin => 25,
        ObiNames::ChipTemperatureMax => 26,
        ObiNames::ChipTemperatureAvg => 27,
        ObiNames::VoltageMin => 28,
        ObiNames::VoltageMax => 29,
        ObiNames::NetworkFrequency => 30,
        ObiNames::ManufacturerIdentification => 31,
        ObiNames::PublicKey => 32,
    }
}

/// The identifier bytes of a name read as one big-endian number.
pub open spec fn id_code(n: ObiNames) -> int {
    let s = n.spec_id();
    s[0] * 0x10000000000 + s[1] * 0x100000000 + s[2] * 0x1000000 + s[3] * 0x10000 + s[4] * 0x100
        + s[5]
}

/// Each table position holds the name whose `name_index` is that position.
pub proof fn lemma_names_indexed()
    ensures
        forall|i: int|
            0 <= i < catalog_names().len() ==> name_index(#[trigger] catalog_names()[i]) == i,
{
}

/// Distinct names never share identifier bytes: the catalog has exactly
/// one record per identifier.
pub proof fn lemma_ids_injective()
    ensures
        forall|m: ObiNames, n: ObiNames| m.spec_id() == n.spec_id() ==> m == n,
{
    assert forall|m: ObiNames, n: ObiNames| m.spec_id() == n.spec_id() implies m == n by {
        if m != n {
            assert(id_code(m) != id_code(n));
        }
    }
}

/// The metric key of an exportable name differs from every other name's
/// metric key.
pub proof fn lemma_exportable_keys_unique()
    ensures
        forall|m: ObiNames, n: ObiNames|
            m != n && m.spec_exportable() ==> m.spec_metric_key() != n.spec_metric_key(),
{
    reveal_strlit("Geräteeinzelidentifikation");
    reveal_strlit("meterreadingtotal");
    reveal_strlit("meterreadingtariff1");
    reveal_strlit("meterreadingtariff2");
    reveal_strlit("totalmeterreading");
    reveal_strlit("activepowertotal");
    reveal_strlit("activepowercurrent");
    reveal_strlit("reactivepowerl1");
    reveal_strlit("currentl1");
    reveal_strlit("voltagel1");
    reveal_strlit("activepowerl1");
    reveal_strlit("reactivepowerl2");
    reveal_strlit("currentl2");
    reveal_strlit("voltagel2");
    reveal_strlit("activepowerl2");
    reveal_strlit("reactivepowerl3");
    reveal_strlit("currentl3");
    reveal_strlit("voltagel3");
    reveal_strlit("activepowerl3");
    reveal_strlit("phasedeviationl1l2");
    reveal_strlit("phasedeviationl1l3");
    reveal_strlit("phasedeviationl1");
    reveal_strlit("phasedeviationl2");
    reveal_strlit("phasedeviationl3");
    reveal_strlit("chiptemperaturecurrent");
    reveal_strlit("chiptemperaturemin");
    reveal_strlit("chiptemperaturemax");
    reveal_strlit("chiptemperatureavg");
    reveal_strlit("voltagemin");
    reveal_strlit("voltagemax");
    reveal_strlit("networkfrequency");
    reveal_strlit("manufactureridentification");
    reveal_strlit("publickey");
    assert forall|m: ObiNames, n: ObiNames|
        m != n && m.spec_exportable() implies m.spec_metric_key() != n.spec_metric_key() by {
        let km = m.spec_metric_key();
        let kn = n.spec_metric_key();
        if km == kn {
            assert(km.len() == kn.len());
            assert(km[0] == kn[0]);
            if km.len() == 19 {
                assert(km[18] == kn[18]);
            }
            assert(false);
        }
    }
}

/// The first element of `s` whose key under `key` equals `id`.
pub open spec fn first_match<T>(s: Seq<T>, key: spec_fn(T) -> Seq<u8>, id: Seq<u8>) -> Option<T>
    decreases s.len(),
{
    if s.len() == 0 {
        None
    } else if key(s[0]) == id {
        Some(s[0])
    } else {
        first_match(s.subrange(1, s.len() as int), key, id)
    }
}

/// Scanning past a match-free prefix does not change the first match.
pub proof fn lemma_first_match_skip<T>(s: Seq<T>, key: spec_fn(T) -> Seq<u8>, id: Seq<u8>, i: int)
    requires
        0 <= i <= s.len(),
        forall|j: int| 0 <= j < i ==> key(#[trigger] s[j]) != id,
    ensures
        first_match(s, key, id) == first_match(s.subrange(i, s.len() as int), key, id),
    decreases i,
{
    if i == 0 {
        assert(s.subrange(0, s.len() as int) =~= s);
    } else {
        lemma_first_match_skip(s, key, id, i - 1);
        let t = s.subrange(i - 1, s.len() as int);
        assert(t[0] == s[i - 1]);
        assert(t.subrange(1, t.len() as int) =~= s.subrange(i, s.len() as int));
    }
}

/// The key by which catalog records are looked up.
pub open spec fn obi_id_key() -> spec_fn(Obi) -> Seq<u8> {
    |e: Obi| e.id@
}

/// The key by which names are looked up.
pub open spec fn name_id_key() -> spec_fn(ObiNames) -> Seq<u8> {
    |n: ObiNames| n.spec_id()
}

/// The predicate selecting exportable records.
pub open spec fn is_exportable() -> spec_fn(Obi) -> bool {
    |e: Obi| e.exportable
}

/// The first record in `s` with the given identifier bytes.
pub open spec fn lookup_in(s: Seq<Obi>, id: Seq<u8>) -> Option<Obi> {
    first_match(s, obi_id_key(), id)
}

/// A catalog is well formed when no two records share identifier bytes
/// and the metric key of every exportable record differs from every
/// other record's metric key.
pub open spec fn catalog_wf(s: Seq<Obi>) -> bool {
    &&& forall|i: int, j: int|
        #![trigger s[i], s[j]]
        0 <= i < s.len() && 0 <= j < s.len() && i != j ==> s[i].id@ != s[j].id@
    &&& forall|i: int, j: int|
        #![trigger s[i], s[j]]
        0 <= i < s.len() && 0 <= j < s.len() && i != j && s[i].exportable
            ==> s[i].metric_name@ != s[j].metric_name@
}

/// The immutable identifier table, built once at startup and then only
/// read.
pub struct Catalog {
    entries: Vec<Obi>,
}

impl View for Catalog {
    type V = Seq<Obi>;

    closed spec fn view(&self) -> Seq<Obi> {
        self.entries@
    }
}

impl Catalog {
    /// Well-formedness of the table; `get_lookup_map` establishes it.
    pub open spec fn wf(&self) -> bool {
        catalog_wf(self@)
    }

    /// The first record with the given identifier bytes.
    pub open spec fn spec_lookup(&self, id: Seq<u8>) -> Option<Obi> {
        lookup_in(self@, id)
    }

    /// Number of records.
    pub fn len(&self) -> (n: usize)
        ensures
            n == self@.len(),
    {
        self.entries.len()
    }

    /// The record at a table position.
    pub fn entry_at(&self, i: usize) -> (e: Obi)
        requires
            i < self@.len(),
        ensures
            e == self@[i as int],
    {
        self.entries[i]
    }

    /// Looks an identifier up in the table. Absence is an expected,
    /// non-error outcome: a meter reports many quantities the system
    /// does not track.
    pub fn lookup(&self, id: &[u8; 6]) -> (r: Option<Obi>)
        ensures
            r == self.spec_lookup(id@),
            r matches Some(e) ==> e.id@ == id@ && self@.contains(e),
            r is None ==> forall|j: int| 0 <= j < self@.len() ==> (#[trigger] self@[j]).id@ != id@,
    {
        let n = self.entries.len();
        let mut i: usize = 0;
        while i < n
            invariant
                n == self@.len(),
                i <= n,
                forall|j: int| 0 <= j < i ==> (#[trigger] self@[j]).id@ != id@,
            decreases n - i,
        {
            let e = self.entries[i];
            if ids_equal(&e.id, id) {
                proof {
                    lemma_first_match_skip(self@, obi_id_key(), id@, i as int);
                    let t = self@.subrange(i as int, self@.len() as int);
                    assert(t[0] == self@[i as int]);
                    assert(self@.contains(e));
                }
                return Some(e);
            }
            i += 1;
        }
        proof {
            lemma_first_match_skip(self@, obi_id_key(), id@, self@.len() as int);
        }
        None
    }

    /// The exportable records, in table order; deterministic, used once
    /// at startup to pre-register every exportable gauge.
    pub fn exportable_entries(&self) -> (r: Vec<Obi>)
        ensures
            r@ == self@.filter(is_exportable()),
    {
        let n = self.entries.len();
        let mut r: Vec<Obi> = Vec::new();
        let mut i: usize = 0;
        while i < n
            invariant
                n == self@.len(),
                i <= n,
                r@ == self@.take(i as int).filter(is_exportable()),
            decreases n - i,
        {
            let e = self.entries[i];
            proof {
                reveal_with_fuel(Seq::filter, 2);
                let p = is_exportable();
                let t1 = self@.take(i as int + 1);
                assert(t1.drop_last() =~= self@.take(i as int));
                assert(t1.last() == self@[i as int]);
                if e.exportable {
                    assert(t1.filter(p) == self@.take(i as int).filter(p).push(e));
                } else {
                    assert(t1.filter(p) == self@.take(i as int).filter(p));
                }
            }
            if e.exportable {
                r.push(e);
            }
            i += 1;
        }
        proof {
            assert(self@.take(self@.len() as int) =~= self@);
        }
        r
    }
}

impl ObiNames {
    /// All names, in table order.
    pub fn all() -> (r: Vec<ObiNames>)
        ensures
            r@ == catalog_names(),
    {
        let mut r: Vec<ObiNames> = Vec::new();
        r.push(ObiNames::DeviceIdentification);
        r.push(ObiNames::MeterReadingTotal);
        r.push(ObiNames::MeterReadingTariff1);
        r.push(ObiNames::MeterReadingTariff2);
        r.push(ObiNames::TotalMeterReading);
        r.push(ObiNames::ActivePowerTotal);
        r.push(ObiNames::ActivePowerCurrent);
        r.push(ObiNames::ReactivePowerL1);
        r.push(ObiNames::CurrentL1);
        r.push(ObiNames::VoltageL1);
        r.push(ObiNames::ActivePowerL1);
        r.push(ObiNames::ReactivePowerL2);
        r.push(ObiNames::CurrentL2);
        r.push(ObiNames::VoltageL2);
        r.push(ObiNames::ActivePowerL2);
        r.push(ObiNames::ReactivePowerL3);
        r.push(ObiNames::CurrentL3);
        r.push(ObiNames::VoltageL3);
        r.push(ObiNames::ActivePowerL3);
        r.push(ObiNames::PhaseDeviationL1L2);
        r.push(ObiNames::PhaseDeviationL1L3);
        r.push(ObiNames::PhaseDeviationL1);
        r.push(ObiNames::PhaseDeviationL2);
        r.push(ObiNames::PhaseDeviationL3);
        r.push(ObiNames::ChipTemperatureCurrent);
        r.push(ObiNames::ChipTemperatureMin);
        r.push(ObiNames::ChipTemperatureMax);
        r.push(ObiNames::ChipTemperatureAvg);
        r.push(ObiNames::VoltageMin);
        r.push(ObiNames::VoltageMax);
        r.push(ObiNames::NetworkFrequency);
        r.push(ObiNames::ManufacturerIdentification);
        r.push(ObiNames::PublicKey);
        proof {
            assert(r@ =~= catalog_names());
        }
        r
    }
}

/// Builds the identifier table: one record per name, in table order.
/// The result is well formed, so callers may rely on identifier and
/// metric-key uniqueness.
pub fn get_lookup_map() -> (r: Catalog)
    ensures
        r@.len() == catalog_names().len(),
        forall|i: int|
            0 <= i < catalog_names().len() ==> entry_of(catalog_names()[i], #[trigger] r@[i]),
        r.wf(),
{
    let names = ObiNames::all();
    let mut entries: Vec<Obi> = Vec::new();
    let n = names.len();
    let mut i: usize = 0;
    while i < n
        invariant
            n == catalog_names().len(),
            names@ == catalog_names(),
            i <= n,
            entries@.len() == i,
            forall|j: int| 0 <= j < i ==> entry_of(catalog_names()[j], #[trigger] entries@[j]),
        decreases n - i,
    {
        let e = names[i].obi();
        entries.push(e);
        i += 1;
    }
    let r = Catalog { entries };
    proof {
        lemma_names_indexed();
        lemma_ids_injective();
        lemma_exportable_keys_unique();
        assert forall|i: int, j: int|
            #![trigger r@[i], r@[j]]
            0 <= i < r@.len() && 0 <= j < r@.len() && i != j implies r@[i].id@ != r@[j].id@ && (
        r@[i].exportable ==> r@[i].metric_name@ != r@[j].metric_name@) by {
            let ni = catalog_names()[i];
            let nj = catalog_names()[j];
            assert(name_index(ni) == i && name_index(nj) == j);
            assert(ni != nj);
        }
    }
    r
}

/// The name owning the given identifier bytes, if any.
pub open spec fn spec_lookup_name(id: Seq<u8>) -> Option<ObiNames> {
    first_match(catalog_names(), name_id_key(), id)
}

/// Finds the name that owns the given identifier bytes.
pub fn lookup_obi_name(id: &[u8; 6]) -> (r: Option<ObiNames>)
    ensures
        r == spec_lookup_name(id@),
        r matches Some(n) ==> n.spec_id() == id@,
        r is None ==> forall|n: ObiNames| catalog_names().contains(n) ==> n.spec_id() != id@,
{
    let names = ObiNames::all();
    let n = names.len();
    let mut i: usize = 0;
    while i < n
        invariant
            n == catalog_names().len(),
            names@ == catalog_names(),
            i <= n,
            forall|j: int| 0 <= j < i ==> (#[trigger] catalog_names()[j]).spec_id() != id@,
        decreases n - i,
    {
        let name = names[i];
        let name_id = name.id();
        if ids_equal(&name_id, id) {
            proof {
                lemma_first_match_skip(catalog_names(), name_id_key(), id@, i as int);
                let t = catalog_names().subrange(i as int, catalog_names().len() as int);
                assert(t[0] == catalog_names()[i as int]);
            }
            return Some(name);
        }
        i += 1;
    }
    proof {
        lemma_first_match_skip(catalog_names(), name_id_key(), id@, catalog_names().len() as int);
        assert forall|m: ObiNames| catalog_names().contains(m) implies m.spec_id() != id@ by {
            let j = choose|j: int|
                0 <= j < catalog_names().len() && catalog_names()[j] == m;
        }
    }
    None
}

/// Round trip: looking up the identifier of any catalog record returns
/// that very record, whose identifier therefore equals the query key.
pub proof fn lemma_lookup_round_trip(cat: Catalog, i: int)
    requires
        cat.wf(),
        0 <= i < cat@.len(),
    ensures
        cat.spec_lookup(cat@[i].id@) == Some(cat@[i]),
{
    let id = cat@[i].id@;
    assert forall|j: int| 0 <= j < i implies obi_id_key()(#[trigger] cat@[j]) != id by {
        assert(cat@[j].id@ != cat@[i].id@);
    }
    lemma_first_match_skip(cat@, obi_id_key(), id, i);
    let t = cat@.subrange(i, cat@.len() as int);
    assert(t[0] == cat@[i]);
}

/// Compares two identifiers byte by byte.
fn ids_equal(a: &[u8; 6], b: &[u8; 6]) -> (r: bool)
    ensures
        r == (a@ =~= b@),
{
    let mut i: usize = 0;
    while i < 6
        invariant
            i <= 6,
            forall|j: int| 0 <= j < i ==> a@[j] == b@[j],
        decreases 6 - i,
    {
        if a[i] != b[i] {
            return false;
        }
        i += 1;
    }
    true
}

} // verus!
