# guitar_amp_dsp

Tube amp emulation and USB/Bluetooth audio plumbing for an ESP32-S3 guitar
amp. The project is split in two:

- `src/` is the verified library (Verus). It holds the integer and control
  logic of the firmware: circular delay-line addressing shared by the FIR
  filter and the cabinet convolution, preamp stage bookkeeping, FIR tap
  counts, cabinet impulse-response selection, the discrete part of the amp
  presets with lookup by name, the Bluetooth manager state and the USB audio
  device (buffer queue and integer volume scaling).
- `app/` is ordinary Rust around it: the floating-point DSP blocks (biquads,
  input stage, pickup filter, preamp waveshaping, tone stack, power amp,
  cabinet convolution, output stage, FIR design), the continuous preset
  parameters, the BLE message types with their serde derives, and a host
  program that runs a test tone through every preset.

`tests/` exercises the library from outside.
