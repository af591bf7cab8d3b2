# flow

The logic of a flow-based programming system, written in Verus and verified.

- `src/` is the library. `json` holds the JSON values that flow between functions, with a
  mathematical model, and `json_serde` their JSON text and pointers, handled by `serde_json`;
  `input` the input queues of runtime functions; `value` runtime values; `flowstdlib` and
  `runtime` functions run by flows; `model`, `generate` and `gatherer` the compile-time model
  and the generation of runtime functions and manifests; `runner`, `run_list` and
  `execution` the decisions of the flow runner; `provider` the choice of a content provider
  and the resolution of library urls; `text` string helpers with their specifications.
- `app/` holds what surrounds the library: the command line, the environment, threads,
  standard input, the file system, the content providers, and the `serde` form of
  manifests.
- `tests/` exercises the library on concrete values.

Libraries are looked for in the directories of the library search path only. Base urls
given with `-L` are taken as directory paths: finding a library on the web needs `simpath`'s
`urls` feature, which is not built here, so a library that is only reachable at a base url
is reported as not found.
