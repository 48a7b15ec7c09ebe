# ocr_rs

Verified core of a PaddleOCR text recognition library that runs its models on
the MNN inference runtime.

`src/` holds the verified library. Its functions carry Verus contracts; the
few calls into `image`, `fast_image_resize` and std stand behind small trusted
wrappers whose contracts say what those crates do. The `law_*` proof functions
state properties that relate several functions.

- `build_support`: choosing between the prebuilt MNN archive, a source build,
  and a user-supplied library; linker settings per target.
- `mnn`: inference configuration, backend names and native codes, the checks
  made before and after each call into the native runtime, and error messages.
- `preprocess`: tensor padding, block tiling, and cropping, resizing, converting
  and building images.
- `rec`: charset parsing, punctuation classes, greedy CTC decoding and batching.
- `det`: detection modes, the detection output shape and the crop of a text
  region.
- `engine`: recognition strategy, reading order, page orientation correction
  and engine configuration.

`app/` holds unverified code around the library: floating-point preprocessing,
region sampling and output decoding, option types with floating-point
thresholds, the image buffer types the verifier cannot be given, and file
access. The bindings to the native MNN runtime, and the model and engine types
built on them, are not part of this crate.

`tests/` exercises the library on concrete values.
