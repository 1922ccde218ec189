# buttplug device layer, verified

The device side of a Buttplug server: which protocols drive which hardware, how devices found
on the various buses are identified and admitted, what each device may be sent, and the
decisions of the tasks that talk to Bluetooth adapters, Lovense dongles, gamepads and websocket
devices. The logic lives in `src/` and is verified with Verus; `app/` holds what Verus does not
see: the JSON forms of the Lovense messages and the task that runs the Lovense dongle's state
machine over tokio channels.

Layout of `src/`:

- `specifier`, `identifiers`, `definitions`, `message_attributes`, `messages`: how hardware is
  described and matched, how devices and models are identified, and what messages a device takes.
- `configuration`: the device configuration manager and its builder (protocol matching, allow and
  deny lists, device indexes).
- `manager`: the device manager's bookkeeping of connecting and connected devices.
- `concurrent`: the `dashmap` maps and sets the managers keep their state in, with their contracts.
- `dongle_messages`, `dongle`: the Lovense dongle's messages and its state machine.
- `btle`, `usb`, `serial`, `hid`, `gamepad`, `lovense_connect`, `websocket`: the decisions of the
  communication managers of each bus.
- `assoc`, `text`: association lists and character-level string helpers used throughout.
