# vulkanize

GGUF v3 model-file parsing and the decision logic of an AMD-first Vulkan compute backend,
written in Verus and verified.

- `src/` is the verified library.
  - `gguf_types`, `gguf_parse`: the header, metadata values and entries, tensor descriptors
    and the skipping of the metadata region, each stated as a function on bytes.
  - `gguf_arch`: model architecture metadata extracted from the parsed entries.
  - `gguf_laws`: what the parser gives back of what a writer of the format wrote.
  - `half`: half-precision to single-precision conversion on bit patterns, and a proof that
    it keeps the value.
  - `embedding`: embedding table row lookup.
  - `vulkan`: device, queue family and memory type choice, buffer checks, error messages and
    device description text, on the raw values of Vulkan enums and flags.
  - `text`, `le_bytes`: text formatting and little-endian reads.
- `tests/` exercises the library on concrete values.
- `app/` is the command-line program: file reading, the Vulkan driver calls through `ash`,
  and the printing of floating-point values.
