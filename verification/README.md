# deployer

Cluster deployment options for a container-based storage control plane.

- `src/` is verified with Verus: the cluster label (`prefix.name`) parser and
  its accessors, the start/stop/list option types with their builders, the
  arguments of the docker listing command, the line of the simple listing,
  and a few model types.
- `app/` holds the command-line front end (`structopt`), the conversions to
  the library's types, and the actions that stop and list the cluster
  through docker and the cluster composer. Starting a cluster needs the
  deployment's component registry (its `infra` module), which this crate
  does not have, so it is not written here.
- `tests/` runs the library on concrete values.
