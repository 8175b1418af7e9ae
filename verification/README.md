# qubit_value

Type-safe containers for dynamically typed values, verified with Verus.

- `Value` holds one value of one of 27 data types, or no value with a
  remembered type. Getters and setters are strictly typed; `to::<T>()`
  converts between types by fixed rules (range-checked integers, decimal
  text, `<nanoseconds>ns` durations, URL and JSON text).
- `MultiValues` holds a list of values of one data type, with list and
  first-item getters, setters, adders and `merge`.
- `NamedValue` and `NamedMultiValues` attach a name to either.

## Conversion rules

`Value::to::<T>()` follows the library's own rules, stated and proved in
`src/value_convert.rs`, one fixed table: an integer target takes every
integer type when the value fits its range, `bool` (`0` or `1`), `char`,
floats (truncated and saturated as an `as` cast does), big numbers within
range, and decimal text; `bool` takes integers (non-zero
is `true`) and the text `true` or `false`; every value but a float and a
string map has a text form (a string map's is its JSON object), and
durations read and write `<nanoseconds>ns`. An empty value gives `NoValue`,
and a pair of types with no conversion gives `ConversionFailed` with both
types. `char`, dates, times, instants, big numbers and string maps convert
only from their own type.

Lists convert through the shared conversion engine of `qubit_datatype`,
whose rules depend on its conversion policy and limits; that call is made
in `app/`, and the library decides what comes of it:
`first_conversion_result` and `list_conversion_result` give `NoValue` (or
no items) for a list with no value and map the engine's failures to
`ValueError` by `conversion_failure_error`.

Operations state their results over mathematical views of the containers
(`ValueView`, `MultiValuesView`). Results computed by outside crates are
stated through named functions of their inputs (the text of a date, a parsed
URL, a duration built from seconds and nanoseconds); the JSON text of a
string map is stated by what it reads back as, since its entry order follows
the map's iteration order. `src/laws.rs` proves the properties that relate
several operations. Floating-point values are held by their bit patterns;
the floating-point conversions, the conversion of lists through
qubit_datatype's converters, serde support and `chrono::DateTime<Utc>`
interop live in `app/`.
