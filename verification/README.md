# myco_core

The decisions of the Myco app runtime, verified with Verus: which UDP instance a
radio lane rides, how settings are read and saved, when the mesh node is built,
started, drained and replaced, what each action of the UI changes, and what is
asked of the world in turn.

- `src/` is the library. It touches nothing outside: actions change the state and
  give commands, and whoever carries those out reports back.
  - `lanes`, `node_plan`: UDP instances, their pool, and the node's configuration
  - `settings_store`: the persisted settings and how they are saved
  - `lifecycle`, `node_task`: the node's life, its loop task and the watchdog
  - `startup`: the steps of a start and what is said of what fails
  - `speedtest`, `peer_feed`: the link test and the peers as last seen
  - `action`, `state`, `runtime`: actions, snapshots and the runtime itself
  - `runtime_laws`: what holds over any action and any history
- `tests/` runs the library on concrete values.
- `app/` is the shell: disk, tasks, sockets, JSON.

The laws are the public proof functions whose names begin with `law_`. One thing
is taken on trust: what `str::trim` of the standard library returns.
