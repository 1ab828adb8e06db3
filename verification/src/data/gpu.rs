use vstd::prelude::*;

verus! {

/// The sample of the first GPU: memory in bytes, utilization and fan speed in
/// whole percent, power in milliwatts, temperature in degrees Celsius.
#[derive(Debug, PartialEq, Eq)]
pub struct GpuSnapshot {
    pub name: String,
    pub temperature: u32,
    pub max_memory: u64,
    pub used_memory: u64,
    pub utilization: u32,
    pub max_power: u32,
    pub power_usage: u32,
    pub fan_speed: u32,
}

impl Clone for GpuSnapshot {
    fn clone(&self) -> (r: Self)
        ensures
            r == *self,
    {
        GpuSnapshot {
            name: self.name.clone(),
            temperature: self.temperature,
            max_memory: self.max_memory,
            used_memory: self.used_memory,
            utilization: self.utilization,
            max_power: self.max_power,
            power_usage: self.power_usage,
            fan_speed: self.fan_speed,
        }
    }
}

} // verus!
