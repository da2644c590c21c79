# evolution_reasoning

A reasoning graph for a chat model, verified with Verus.

- `src/` is the library. It holds the graph and its nodes and edges, the
  divergence, convergence and backtracking engines, checkpoints as XML
  snapshots, the tool catalogue and the executor that runs the tools, the
  conversation controller, the memory files' text formats, and the exports.
  Every function there has a contract that Verus proves.
- `app/` is the program around it: the command line, the chat loop with
  the model, files, processes and the HTTP endpoints. It hands the library
  plain values and acts on what comes back.
- `tests/` runs the library on concrete values.
