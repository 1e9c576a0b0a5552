# ohboi_parse

The product parser of the ohboi price aggregator: it reads the catalog and
product pages of online shops (mi-shop.com, samsungshop.com.ua), and turns the
characteristics table of a product page into typed characteristics.

- `src/` is the library, verified with Verus. Every public function states in
  its `ensures` what it returns, over spec functions on character sequences.
  - `text.rs`, `number.rs`: the string and number primitives (trimming,
    splitting, replacing, decimal numbers) with their specifications.
  - `pattern.rs`, `document.rs`, `inflection.rs`: the calls into `regex`,
    `scraper` and `Inflector`, each behind a small trusted wrapper whose
    result is named by an uninterpreted spec function.
  - `crawler/`: the value readers (`util/`), the table columns and their
    laws (`columns.rs`), the media formats, the shared page readers and the
    two shops.
  - `dto/`, `db/`, `messages.rs`, `my_enum.rs`: the characteristics, the
    stored names and keys, and the queue messages.
  - `parser.rs`: paging decisions and the merging of repeated products.
- `app/` runs the parser around the library: the queue (`lapin`), HTTP
  (`reqwest`), the cloud storage (`rusoto`), the database (`diesel`), and the
  reading of prices and fractional values as floating-point numbers.
- `tests/` exercises the library on concrete pages and values.
