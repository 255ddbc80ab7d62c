# savvy

The verified core of an interface between R and Rust.

`src/` holds the logic, each function with a contract that Verus proves:

- `protect`: the doubly linked list of preserved R objects (protect, release);
- `tagged`: the flagged-pointer protocol by which errors reach the C side;
- `error`: the error type and its messages;
- `sexp`: R's missing values, type codes, and the integer, logical, raw,
  character and list vectors, with bounds-checked access and conversions;
- `bindgen`: the reading of a Rust source file (which items are exported,
  their doc comments, methods and constructors) and the generator of the C
  header, C registration code and R wrappers for them;
- `altrep`, `eval`, `io`, `panic_hook`, `unextendr_demo`: the catalogue of
  ALTREP classes and the materialisation decisions of ALTREP vectors, the checks on parsed R code, console text, panic reports and
  the demonstration functions.

`app/` is the command-line generator (reading the file and printing the
result), the Rust wrappers built with `syn`'s macros, the floating-point
conversions, and the code that talks to R's C API, which is only available
inside an R session.
