# nmrs

Connection management with NetworkManager and BlueZ: connecting and disconnecting Bluetooth
devices, saving and activating new profiles, and secrets that are wiped when dropped. Of the wiping,
`src/` proves that the secret's text is empty afterwards; that its memory is overwritten with zeros
rests on the crate `zeroize`.

- `src/` is the library, verified with Verus. Procedures that take D-Bus calls are state machines:
  `request` says which call one waits for, `resume` takes the reply. Each has a `.._run`, which says
  in one piece what it asks and what it comes to, and a `law_..` which proves that the steps do
  just that whatever the services answer. `src/run.rs` defines what that means.
- `app/` makes the calls with `zbus` and hands the replies to the procedures. What it takes from
  other parts of connection management is the trait `Host`.
- `tests/` runs the library on concrete values and scripted replies.
