use crate::text::{
    bytes_contain, chars_of, contains_run, last_word, last_word_range, parse_number, parsed_number,
};
use vstd::prelude::*;
use vstd::string::StringSliceAdditionalSpecFns;
use vstd::utf8::{decode_utf8, encode_utf8, encode_utf8_decode_utf8, is_char_boundary};

verus! {

/// One core's sample: usage in thousandths of a percent, temperature in
/// thousandths of a degree Celsius (zero where no sensor is known).
#[derive(Clone, Copy, Debug, PartialEq, Eq)]
pub struct CoreSnapshot {
    pub usage: u32,
    pub temp: u32,
}

/// The CPU sample: overall usage in thousandths of a percent, and the cores.
#[derive(Debug, PartialEq, Eq)]
pub struct CpuSnapshot {
    pub usage: u32,
    pub cores: Vec<CoreSnapshot>,
}

impl Clone for CpuSnapshot {
    fn clone(&self) -> (r: Self)
        ensures
            r.usage == self.usage,
            r.cores@ == self.cores@,
    {
        CpuSnapshot { usage: self.usage, cores: self.cores.clone() }
    }
}

/// What the host reports of one core: its name, which ends in the core's
/// number, and its usage in thousandths of a percent.
#[derive(Debug, PartialEq, Eq)]
pub struct CoreReading {
    pub name: String,
    pub usage: u32,
}

/// What the host reports of one temperature sensor: its label, and the
/// temperature in thousandths of a degree Celsius.
#[derive(Debug, PartialEq, Eq)]
pub struct SensorReading {
    pub label: String,
    pub temperature: u32,
}

/// The number of the core named `name`: what the name writes behind its
/// first three bytes, such as the `12` of `cpu12`. A name that cannot be cut
/// there, or writes no number there, names no core.
pub open spec fn core_id_of(name: Seq<char>) -> Option<usize> {
    let bytes = encode_utf8(name);
    if bytes.len() >= 3 && is_char_boundary(bytes, 3) {
        parsed_number(decode_utf8(bytes.subrange(3, bytes.len() as int)))
    } else {
        None
    }
}

/// The number of the core that the sensor labelled `label` is on: the number
/// that the label's last word writes, for a label that has `Core` in it.
/// Every other sensor is on no core.
pub open spec fn sensor_core_of(label: Seq<char>) -> Option<usize> {
    if contains_run(encode_utf8(label), encode_utf8("Core"@)) {
        parsed_number(last_word(label))
    } else {
        None
    }
}

/// The temperature of the core `id`: that of the last sensor on it, zero
/// where none is.
pub open spec fn temperature_of(sensors: Seq<SensorReading>, id: usize) -> u32
    decreases sensors.len(),
{
    if sensors.len() == 0 {
        0
    } else if sensor_core_of(sensors.last().label@) == Some(id) {
        sensors.last().temperature
    } else {
        temperature_of(sensors.drop_last(), id)
    }
}

/// The number of the core named `name`, if the name gives one.
pub fn core_id(name: &str) -> (id: Option<usize>)
    ensures
        id == core_id_of(name@),
{
    if name.as_bytes().len() >= 3 && name.is_char_boundary(3) {
        let (_, rest) = name.split_at(3);
        proof {
            encode_utf8_decode_utf8(rest@);
        }
        let chars = chars_of(rest);
        assert(chars@.subrange(0, chars@.len() as int) == chars@);
        parse_number(&chars, 0, chars.len())
    } else {
        None
    }
}

/// The number of the core that the sensor labelled `label` is on, if it is
/// on one.
pub fn sensor_core(label: &str) -> (id: Option<usize>)
    ensures
        id == sensor_core_of(label@),
{
    if bytes_contain(label.as_bytes(), "Core".as_bytes()) {
        let chars = chars_of(label);
        let (start, end) = last_word_range(&chars);
        parse_number(&chars, start, end)
    } else {
        None
    }
}

impl CpuSnapshot {
    /// The CPU sample that the host's readings give: the cores in the order
    /// of their readings, each with the temperature of the sensor on it.
    /// Every core's name has to give its number.
    pub fn from_sysinfo(usage: u32, cores: &Vec<CoreReading>, sensors: &Vec<SensorReading>) -> (cpu:
        CpuSnapshot)
        requires
            forall|i: int| 0 <= i < cores@.len() ==> core_id_of(#[trigger] cores@[i].name@) is Some,
        ensures
            cpu.usage == usage,
            cpu.cores@.len() == cores@.len(),
            forall|i: int|
                0 <= i < cores@.len() ==> #[trigger] cpu.cores@[i] == (CoreSnapshot {
                    usage: cores@[i].usage,
                    temp: temperature_of(sensors@, core_id_of(cores@[i].name@)->0),
                }),
    {
        let mut sensor_cores: Vec<Option<usize>> = Vec::new();
        let mut k: usize = 0;
        while k < sensors.len()
            invariant
                k <= sensors@.len(),
                sensor_cores@.len() == k,
                forall|j: int|
                    0 <= j < k ==> #[trigger] sensor_cores@[j] == sensor_core_of(
                        sensors@[j].label@,
                    ),
            decreases sensors@.len() - k,
        {
            sensor_cores.push(sensor_core(sensors[k].label.as_str()));
            k += 1;
        }
        let mut snapshots: Vec<CoreSnapshot> = Vec::new();
        let mut i: usize = 0;
        while i < cores.len()
            invariant
                i <= cores@.len(),
                snapshots@.len() == i,
                sensor_cores@.len() == sensors@.len(),
                forall|j: int|
                    0 <= j < sensors@.len() ==> #[trigger] sensor_cores@[j] == sensor_core_of(
                        sensors@[j].label@,
                    ),
                forall|j: int|
                    0 <= j < cores@.len() ==> core_id_of(#[trigger] cores@[j].name@) is Some,
                forall|j: int|
                    0 <= j < i ==> #[trigger] snapshots@[j] == (CoreSnapshot {
                        usage: cores@[j].usage,
                        temp: temperature_of(sensors@, core_id_of(cores@[j].name@)->0),
                    }),
            decreases cores@.len() - i,
        {
            let id: usize = match core_id(cores[i].name.as_str()) {
                Some(id) => id,
                None => 0,
            };
            let mut temp: u32 = 0;
            let mut n: usize = sensors.len();
            assert(sensors@.subrange(0, n as int) == sensors@);
            while n > 0
                invariant_except_break
                    temp == 0,
                    temperature_of(sensors@, id) == temperature_of(
                        sensors@.subrange(0, n as int),
                        id,
                    ),
                invariant
                    n <= sensors@.len(),
                    sensor_cores@.len() == sensors@.len(),
                    forall|j: int|
                        0 <= j < sensors@.len() ==> #[trigger] sensor_cores@[j] == sensor_core_of(
                            sensors@[j].label@,
                        ),
                ensures
                    temp == temperature_of(sensors@, id),
                decreases n,
            {
                let ghost head = sensors@.subrange(0, n as int);
                assert(head.last() == sensors@[n - 1]);
                assert(head.drop_last() == sensors@.subrange(0, n - 1));
                let on_core = match sensor_cores[n - 1] {
                    Some(core) => core == id,
                    None => false,
                };
                if on_core {
                    temp = sensors[n - 1].temperature;
                    break ;
                }
                n -= 1;
            }
            snapshots.push(CoreSnapshot { usage: cores[i].usage, temp });
            i += 1;
        }
        CpuSnapshot { usage, cores: snapshots }
    }
}

} // verus!
