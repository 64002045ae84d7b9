# aviutl2_typst

The decision logic of a plugin that renders [Typst](https://typst.app/)
documents in AviUtl2, with its contracts proved.

The plugin adds two objects to the host: a text object, which renders Typst
code written in the host on a page of a given size, and a file object, which
renders one page of a `.typ` file.

- `src/` is the library: the render caches of both objects (over `lru`'s
  `LruCache`, modelled as its entries in recency order), which page a file
  object shows, the page header of a text object, where the files of a
  compilation are read from, the package and project directories, the names
  and notes in reports of errors, and the texts the plugin gives the host.
- `app/` is the plugin itself: the host hooks, compiling with `typst`,
  rasterizing with `typst-render`, reading the DLL's path from Windows, and
  writing reports with `codespan-reporting`. The plugin's decisions are
  calls into the library; what stays in app/ is converting between the
  library's values and those of the host, typst and codespan (such as
  turning typst's severity of a report into codespan's kind and the host's
  log writer), and float arithmetic.
- `tests/` runs the library on concrete values.
