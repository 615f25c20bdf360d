# kaiman

A manga scraper for WeebCentral, MangaDex and MangaPill. Given a series URL
(and a library directory, remembered between runs), it checks that the series
exists, makes a directory for it, downloads its cover and then every chapter
into `chapter_<n>` directories, one `page_<nnn>` file per page, marking each
finished chapter with a `.completed` file so that an interrupted scrape
resumes where it stopped.

- `src/` is the library, verified with Verus: reading the input URL and the
  command line, the addresses of each site, the chapter and page file layout,
  picking chapter and page links out of HTML, and the decimal rendering and
  parsing of numbers that these rely on.
- `app/` is the program around it: arguments, HTTP requests, JSON decoding,
  the file system and the pauses between requests.
- `tests/` exercises the library on concrete values.
