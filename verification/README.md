# jni_high

A high-level Rust <-> Android/Java bridge whose logic is verified with Verus.

You describe the Java surface once in an `android_bridge!` block and get typed
Rust functions back: static methods that Rust calls, and callbacks that Java
calls, registered as native methods. The library behind it is proved against
its contracts:

- `src/parse.rs`: the block grammar over a flat token sequence. `parse_block`
  returns exactly what the grammar `spec_block` says, errors included, and
  `lemma_parsed_block_ok` states what a successful parse guarantees.
- `src/types.rs`: the types that may cross the bridge, their JNI descriptors,
  JNI value kinds, and how arguments and results are passed and read.
- `src/codegen.rs`: the plan of the generated code (names, Java method names,
  JNI descriptors, parameter types). `plan` returns exactly `spec_plan`.
- `src/error.rs`: `BridgeError`, its messages, and `log_err`'s choice of what
  is worth reporting.
- `src/android/`: the decisions the built-in Android helpers take between their
  JNI calls (which question to ask next, what an answer means), as small state
  machines with laws about whole runs.
- `src/text.rs`, `src/tokens.rs`: character and token helpers.

`app/` is ordinary Rust around the library: the process-wide `AndroidContext`,
the JNI calls of the helpers, DEX loading, turning macro input into tokens and
writing the generated code from a verified plan. Its Android runtime modules
are built for Android targets only.

`tests/` runs the library on concrete inputs.
