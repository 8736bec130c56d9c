# proto_awscli

The logic of a [proto](https://moonrepo.dev/proto) plugin that installs AWS CLI v2,
written in Verus and verified.

- `src/` is the verified library: which Git tags count as v2 releases, how the `v2`
  alias resolves, where installers are downloaded from on each supported host, the
  install and uninstall steps as a machine that picks the next host command from the
  outcome of the last, and where the executables live. `src/laws.rs` proves the
  properties that span these functions.
- `app/` holds the exported plugin functions: they read input from the host, run Git
  and host commands, and turn the library's plain values into proto's types.
- `tests/` runs the library on concrete inputs.
