//! What a process was measured to be.
use vstd::prelude::*;

verus! {

/// How many modules of one process are measured.
pub const MAX_WASM_MODULES: usize = 15;

/// The digest whose bytes are all 0.
pub open spec fn zero_digest() -> [u8; 64] {
    vstd::array::spec_array_fill_for_copy_type::<u8, 64>(0u8)
}

/// No digest is known of any module.
pub open spec fn zero_digests() -> [[u8; 64]; 15] {
    vstd::array::spec_array_fill_for_copy_type::<[u8; 64], 15>(zero_digest())
}

/// The digests of a process.
#[derive(Clone, Copy, Debug)]
pub struct ProcessMeasurements {
    /// The digest of the program that the process starts with.
    pub init_measurement: [u8; 64],
    /// The digest of the configuration of the runtime.
    pub runtime_measurement: [u8; 64],
    /// The digest of the manifest.
    pub manifest_measurement: [u8; 64],
    /// The digest of the library operating system.
    pub libos_measurement: [u8; 64],
    /// The digest of the function that the process was made for.
    pub function_measurement: [u8; 64],
    /// The digest of each module.
    pub wasm_module_measurements: [[u8; 64]; MAX_WASM_MODULES],
    /// How many modules were measured.
    pub wasm_module_count: usize,
    /// The digest of the environment of each module.
    pub env_hash: [[u8; 64]; MAX_WASM_MODULES],
    /// The digest of the input channel.
    pub input_data: [u8; 64],
    /// The digest of the output channel.
    pub output_data: [u8; 64],
}

/// The measurements of a process of which nothing was measured.
pub open spec fn no_measurements() -> ProcessMeasurements {
    ProcessMeasurements {
        init_measurement: zero_digest(),
        runtime_measurement: zero_digest(),
        manifest_measurement: zero_digest(),
        libos_measurement: zero_digest(),
        function_measurement: zero_digest(),
        wasm_module_measurements: zero_digests(),
        wasm_module_count: 0,
        env_hash: zero_digests(),
        input_data: zero_digest(),
        output_data: zero_digest(),
    }
}

impl Default for ProcessMeasurements {
    fn default() -> (measurements: ProcessMeasurements)
        ensures
            measurements == no_measurements(),
    {
        ProcessMeasurements {
            init_measurement: [0;64],
            runtime_measurement: [0;64],
            manifest_measurement: [0;64],
            libos_measurement: [0;64],
            function_measurement: [0;64],
            wasm_module_measurements: [[0;64];15],
            wasm_module_count: 0,
            env_hash: [[0;64];15],
            input_data: [0;64],
            output_data: [0;64],
        }
    }
}

/// How a digest is come by.
#[derive(Clone, Copy, Debug, PartialEq, Eq)]
pub enum Measurement {
    /// The digest is known.
    Known([u8; 64]),
    /// The digest is the SHA-512 of the memory from `start`, `size` bytes of it.
    Region { start: u64, size: u64 },
}

/// How the digest of a region of memory is come by: where nothing is measured, every digest is
/// the zero digest.
pub open spec fn measured(boottime: bool, start: u64, size: u64) -> Measurement {
    if boottime {
        Measurement::Known(zero_digest())
    } else {
        Measurement::Region { start, size }
    }
}

/// How the digest of a region of memory is come by.
pub fn measure(boottime: bool, start_address: u64, size: u64) -> (measurement: Measurement)
    ensures
        measurement == measured(boottime, start_address, size),
{
    if boottime {
        let hash: [u8; 64] = [0;64];
        Measurement::Known(hash)
    } else {
        Measurement::Region { start: start_address, size }
    }
}

/// Whether a module of that number was measured.
pub open spec fn has_module(measurements: ProcessMeasurements, module_id: int) -> bool {
    0 <= module_id < MAX_WASM_MODULES && module_id < measurements.wasm_module_count
}

/// The measurements with the digest of one more module.  Where the digests of as many modules as
/// there is room for are known, it is dropped.
pub open spec fn with_module(
    measurements: ProcessMeasurements,
    digest: [u8; 64],
) -> ProcessMeasurements {
    let count = measurements.wasm_module_count;
    if count < MAX_WASM_MODULES {
        ProcessMeasurements {
            wasm_module_measurements: vstd::array::spec_array_update(
                measurements.wasm_module_measurements,
                count as int,
                digest,
            ),
            wasm_module_count: (count + 1) as usize,
            ..measurements
        }
    } else {
        measurements
    }
}

/// The number of the module that was measured last, 0 where none was.
pub open spec fn last_module(measurements: ProcessMeasurements) -> int {
    if measurements.wasm_module_count > 0 {
        measurements.wasm_module_count - 1
    } else {
        0
    }
}

/// The measurements with the digest of the environment of the module that was measured last.
pub open spec fn with_env_hash(
    measurements: ProcessMeasurements,
    digest: [u8; 64],
) -> ProcessMeasurements {
    let module = last_module(measurements);
    if module < MAX_WASM_MODULES {
        ProcessMeasurements {
            env_hash: vstd::array::spec_array_update(measurements.env_hash, module, digest),
            ..measurements
        }
    } else {
        measurements
    }
}

impl ProcessMeasurements {
    /// Adds the digest of one more module, where there is room for it.
    pub fn record_module(&mut self, digest: [u8; 64])
        ensures
            *final(self) == with_module(*old(self), digest),
    {
        let count = self.wasm_module_count;
        if count < MAX_WASM_MODULES {
            self.wasm_module_measurements[count] = digest;
            self.wasm_module_count = count + 1;
        }
    }

    /// Sets the digest of the environment of the module that was measured last.
    pub fn record_env_hash(&mut self, digest: [u8; 64])
        ensures
            *final(self) == with_env_hash(*old(self), digest),
    {
        let module: usize = if self.wasm_module_count > 0 {
            self.wasm_module_count - 1
        } else {
            0
        };
        if module < MAX_WASM_MODULES {
            self.env_hash[module] = digest;
        }
    }
}

/// A module that was measured while there was room keeps its number and its digest, whatever is
/// measured after it, and the number of modules never exceeds the room for them.
pub proof fn law_modules_keep_their_digest(
    measurements: ProcessMeasurements,
    digest: [u8; 64],
    module_id: int,
)
    requires
        measurements.wasm_module_count <= MAX_WASM_MODULES,
    ensures
        ({
            let after = with_module(measurements, digest);
            &&& after.wasm_module_count <= MAX_WASM_MODULES
            &&& has_module(measurements, module_id) ==> has_module(after, module_id)
                && after.wasm_module_measurements@[module_id]
                == measurements.wasm_module_measurements@[module_id]
            &&& measurements.wasm_module_count < MAX_WASM_MODULES ==> has_module(
                after,
                measurements.wasm_module_count as int,
            ) && after.wasm_module_measurements@[measurements.wasm_module_count as int] == digest
        }),
{
}

/// The digest of an environment is kept with the module that was measured last, and leaves the
/// digests of the modules and of every other environment as they are.
pub proof fn law_env_hash_belongs_to_last_module(
    measurements: ProcessMeasurements,
    module: [u8; 64],
    env: [u8; 64],
    other: int,
)
    requires
        measurements.wasm_module_count < MAX_WASM_MODULES,
        0 <= other < MAX_WASM_MODULES,
        other != measurements.wasm_module_count,
    ensures
        ({
            let after = with_env_hash(with_module(measurements, module), env);
            &&& after.env_hash@[measurements.wasm_module_count as int] == env
            &&& after.env_hash@[other] == measurements.env_hash@[other]
            &&& after.wasm_module_measurements == with_module(
                measurements,
                module,
            ).wasm_module_measurements
        }),
{
}

} // verus!
