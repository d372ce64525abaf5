# MyOwnDesk

A self-hosted remote desktop. Devices register with a relay under a shared key, a
viewer is paired with a device, and the relay forwards what the two send to each
other: video in datagrams, control messages and input on streams.

The library in `src/` holds the decisions and the data, and Verus proves them
against their contracts. The program in `app/` holds what touches the outside
world: sockets, files, clocks, windows and the desktop.

| Modules | |
| --- | --- |
| `message`, `frame` | what is exchanged, and how it lies on a stream |
| `auth`, `hex_text` | tokens and keys |
| `relay`, `table`, `server`, `relay_config` | the relay |
| `net`, `config` | what both kinds of client share |
| `capture`, `encoder`, `service`, `input` | serving a desktop |
| `decoder`, `gui`, `keymap` | showing a desktop |
| `color`, `nal`, `transport` | pictures, H.264 units, packets |
| `crypto`, `fragment` | places for encryption and fragmentation |

Functions whose names begin with `law_` state what holds of several operations
together. Items marked `external_body` call other crates (`ring`,
`constant_time_eq`, `hex`, `rand`, `openh264`) and the standard library; their
contracts are taken on trust, and their comments say what is taken.

Run `myowndesk relay [settings file]` for the relay, `myowndesk --service` to serve
this desktop (on Windows), and `myowndesk` to open a viewer.
