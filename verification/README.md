# vfs

A filesystem namespace service: vnodes, mounts, mount namespaces, clients and their open
files, and the filesystems that can be mounted (bootstrap tree, devices, pipes, `/proc`,
system settings, an in-memory filesystem, and a filesystem that a disk server holds).

- `src/` is the library, verified with Verus. All state is one `VfsState`; its view is
  `VfsModel`, plain mathematical values over which the contracts are stated. Calls to other
  servers are queued in an `RpcCore` and taken up again when the answer is there.
- `tests/` runs the library on concrete values.
- `app/` is the thread that owns the state: it receives requests, asks the library what to
  do, and does it.

What relates several functions stands as public proof functions named `law_...` beside the
functions that they speak of.
