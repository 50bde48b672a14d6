# Mitch CLI

Controls Mitch sensors through a daemon that manages their Bluetooth connections
and hands their data on as LSL streams.

```
mitch_cli daemon-start
mitch_cli scan
mitch_cli status
mitch_cli connect <Name>
mitch_cli disconnect <Name>
mitch_cli record <Name>
```

## Layout

- `src/` is the library. It makes every decision as a step of a state machine:
  an event goes in, the next state and an action come out. Verus proves each step
  against its contract, and the modules state laws over whole runs.
  - `device_actor`, `actor_laws`: the actor that owns a connection through BlueZ,
    with its attempts to reconnect.
  - `btle_actor`: the actor that owns a connection through btleplug.
  - `device_map`, `request`, `status`, `connection`: the running actors, and what
    the daemon does for a client.
  - `daemon`, `btle_daemon`: how a daemon starts, takes clients in and goes down.
  - `client`: the command line client.
  - `mitch`, `protocol`, `address`, `text`: the sensor, the messages, and helpers.
- `app/` is the program around it: arguments, sockets, Bluetooth and LSL. It
  performs the actions and hands back the events.
- `tests/` runs the library on concrete values.

## What is taken on trust

One function: how btleplug writes a Bluetooth address as text (`address`).

## Settings

The environment variable `MITCH_CLI_SETTINGS` may name a JSON file:

```
{
  "socket_path": "/tmp/mitch_cli.sock",
  "frames": { "start_pressure_stream": [], "get_power": [] },
  "update_connection": null
}
```

`frames` holds the bytes of the two commands that are written to a sensor; the
daemon does not start without it. `update_connection` may name a program that is
called with a sensor's address after it was reconnected.
