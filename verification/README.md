# il2cpp_runtime

Reads the runtime metadata that IL2CPP leaves in a compiled Unity game: the code registration,
which lists compiled methods, and the metadata registration, which lists types, generic classes
and generic instantiations. The binary is an ELF file (`libil2cpp.so`) or a PE file
(`GameAssembly.dll`).

## Layout

- `src/` is the library, verified with Verus.
  - `object_file`: segments, symbols, relocations and exports, and where an address lies in the file
  - `bytes`, `reader`: little-endian numbers, strings, records and arrays
  - `types`, `type_tables`: the records of the two registrations, and types by index
  - `code_registration`, `metadata_registration`, `runtime_metadata`: the registrations
  - `type_names`: the full names of types
  - `a64`, `elf`: the way to the registrations through AArch64 code
  - `x86`, `disassembler`, `pe`: the way to the registrations through x86-64 code
- `app/` reads a file in one call. It decodes AArch64 code with `bad64`, which `src/` asks for step
  by step.
- `tests/` runs the library on files that it builds.

## What is proved

Every reader states exactly what it gives for every input: a value, an error, or
`ReadFailure::Malformed` where the file breaks what reading takes for granted. The public proof
functions whose names begin with `law_` state what holds beyond single calls, such as that every
index in a metadata registration lies in its list, that a relocation reads back, and that reading
an ELF file step by step comes to the outcome that the code describes. The field offsets and sizes
of type definitions exist for ELF files only.

What the `object` and `capstone` crates make of bytes is not stated, only that it depends on the
bytes alone. `byteorder` and `core::str::from_utf8` are trusted to do what they document.
