use bytes::{BufMut, BytesMut};
use dsmr5::state::State;
use dsmr5_exporter::instruments::Instrument;
use dsmr5_exporter::snapshot::{Line, MeterReading, Slave, Snapshot};
use dsmr5_exporter::{Dsmr5Codec, Metrics};

fn crc16(data: &[u8]) -> u16 {
    let mut crc: u16 = 0;
    for byte in data {
        crc ^= u16::from(*byte);
        for _ in 0..8 {
            if crc & 1 == 1 {
                crc = (crc >> 1) ^ 0xA001;
            } else {
                crc >>= 1;
            }
        }
    }
    crc
}

fn telegram(lines: &[&str]) -> Vec<u8> {
    let mut data = b"/XMX5LGBBFFB231215493\r\n\r\n".to_vec();
    for line in lines {
        data.extend_from_slice(line.as_bytes());
        data.extend_from_slice(b"\r\n");
    }
    data.push(b'!');
    let checksum = format!("{:04X}", crc16(&data));
    data.extend_from_slice(checksum.as_bytes());
    data.extend_from_slice(b"\r\n");
    data
}

fn thousandths(value: f64) -> u32 {
    (value * 1000.0).round() as u32
}

/// The parser's state as a snapshot: decimals become whole thousandths.
fn snapshot_of(state: &State) -> Snapshot {
    let mut snapshot = Snapshot::empty();
    for reading in state.meterreadings.iter() {
        snapshot.meterreadings.push(MeterReading {
            to: reading.to.map(thousandths),
            by: reading.by.map(thousandths),
        });
    }
    snapshot.tariff_indicator = state.tariff_indicator;
    snapshot.power_delivered = state.power_delivered.map(thousandths);
    snapshot.power_received = state.power_received.map(thousandths);
    snapshot.power_failures = state.power_failures;
    snapshot.long_power_failures = state.long_power_failures;
    for line in state.lines.iter() {
        snapshot.lines.push(Line {
            voltage_sags: line.voltage_sags,
            voltage_swells: line.voltage_swells,
            voltage: line.voltage.map(thousandths),
            current: line.current.map(|amperes| amperes as u32),
            active_power_plus: line.active_power_plus.map(thousandths),
            active_power_neg: line.active_power_neg.map(thousandths),
        });
    }
    for slave in state.slaves.iter() {
        snapshot.slaves.push(Slave {
            device_type: slave.device_type,
            meter_reading: slave.meter_reading.as_ref().map(|reading| thousandths(reading.1)),
        });
    }
    snapshot
}

fn units(thousandths: u64) -> f64 {
    thousandths as f64 / 1000.0
}

#[test]
fn from_the_wire_to_the_instruments() {
    let first = telegram(&[
        "1-0:1.8.1(000576.239*kWh)",
        "1-0:1.8.2(000465.162*kWh)",
        "0-0:96.14.0(0002)",
        "1-0:1.7.0(01.500*kW)",
        "0-0:96.7.21(00009)",
        "1-0:32.7.0(230.1*V)",
        "1-0:52.7.0(229.0*V)",
        "1-0:31.7.0(007*A)",
        "0-1:24.1.0(003)",
        "0-1:24.2.1(190320181000W)(00010.500*m3)",
    ]);
    let second = telegram(&[
        "1-0:1.8.1(000576.240*kWh)",
        "1-0:1.7.0(00.250*kW)",
        "0-1:24.1.0(003)",
        "0-1:24.2.1(190320181500W)(00010.700*m3)",
    ]);
    let mut stream = b"\x00\x00garbage".to_vec();
    stream.extend_from_slice(&first);
    stream.extend_from_slice(&second);

    let mut codec = Dsmr5Codec::new();
    let mut buffer = BytesMut::new();
    let mut metrics = Metrics::new();
    let mut clock = 0;
    let mut gas = Vec::new();
    let mut power = Vec::new();
    for chunk in stream.chunks(37) {
        buffer.put_slice(chunk);
        clock += 100;
        while let Some(state) = codec.decode(&mut buffer).unwrap() {
            metrics.update(&snapshot_of(&state), clock);
            gas.push(metrics.read(Instrument::GasDeliveredCubicMetersTotal, None).unwrap());
            power.push(units(metrics.read(Instrument::PowerDeliveredWatts, None).unwrap()));
        }
    }

    assert_eq!(power, vec![1500.0, 250.0]);
    assert_eq!(gas, vec![10_500, 10_700]);
    assert_eq!(units(gas[1] - gas[0]), 0.2);
    let tariff = metrics.tariff(1).unwrap();
    assert_eq!(tariff.energy_delivered_joules_total, Some(576_240 * 3_600_000));
    assert_eq!(units(tariff.energy_delivered_joules_total.unwrap()), 2_074_464_000.0);
    assert_eq!(
        metrics.tariff(2).unwrap().energy_delivered_joules_total,
        Some(465_162 * 3_600_000)
    );
    assert_eq!(metrics.read(Instrument::EnergyTariff, None), Some(2));
    assert_eq!(metrics.read(Instrument::PowerFailuresTotal, None), Some(9));
    assert_eq!(units(metrics.phase(1).unwrap().phase_voltage_volts.unwrap()), 230.1);
    assert_eq!(units(metrics.phase(2).unwrap().phase_voltage_volts.unwrap()), 229.0);
    assert_eq!(units(metrics.phase(1).unwrap().phase_current_amperes.unwrap()), 7.0);
    assert_eq!(metrics.phase(3).unwrap().phase_voltage_volts, None);
    assert_eq!(metrics.last_update, Some(clock));
    assert!(metrics.is_fresh(clock + 10_000));
    assert!(!metrics.is_fresh(clock + 10_001));
    assert!(buffer.is_empty());
}
