//! The classic end-to-end flows: inserting through the generic value
//! encoder, through typed parameter conversion, and through manual binds,
//! each against a transient in-memory database.

use sqlite_bind::cursor::Cursor;
use sqlite_bind::database::Database;
use sqlite_bind::encdec::BindEncoder;
use sqlite_bind::encdec::EncodeError;
use sqlite_bind::encdec::SqlEncodable;
use sqlite_bind::query::ToSql;
use sqlite_bind::types::BindArg;
use sqlite_bind::types::ResultError;
use sqlite_bind::types::ResultStep;
use sqlite_bind::types::SqliteResult;

fn encode_err(e: EncodeError) -> ResultError {
    match e {
        EncodeError::Engine(c) => c,
        EncodeError::Unsupported => ResultError::SQLITE_MISUSE,
    }
}

#[test]
fn bind1() {
    fn build() -> SqliteResult<Database> {
        let mut database = Database::new(":memory:")?;
        database.exec("CREATE TABLE test (id int, name text, address text)")?;
        {
            let mut tx =
                database.prepare("INSERT INTO test (id, name, address) VALUES (?, ?, ?)")?;
            let mut b = BindEncoder::new(&mut tx);
            for row in [
                (1isize, "John Doe", "123 w Pine"),
                (2isize, "Jane Doe", "345 e Walnut"),
            ]
            .iter()
            {
                row.encode(&mut b).map_err(encode_err)?;
                b.step()?;
                b.reset()?;
            }
        }
        Ok(database)
    }

    fn show(database: &Database) -> SqliteResult<String> {
        let mut q = database.prepare("select * from test")?;
        let mut out = String::new();
        loop {
            match q.step() {
                Ok(ResultStep::SQLITE_DONE) => break,
                Ok(ResultStep::SQLITE_ROW) => {
                    for col in 0..q.get_column_count() {
                        let cell = q.get_text(col)?;
                        out.push_str(cell.as_str());
                        out.push('|');
                    }
                    out.push('\n')
                }
                Err(err) => return Err(err),
            }
        }
        Ok(out)
    }

    match build() {
        Ok(db) => match show(&db) {
            Ok(txt) => {
                assert_eq!(txt, "1|John Doe|123 w Pine|\n2|Jane Doe|345 e Walnut|\n");
            }
            Err(oops) => panic!("show() Err: {:?}", oops),
        },
        Err(oops) => panic!("build() Err: {:?}", oops),
    }
}

#[test]
fn bind2() {
    #[derive(Debug)]
    struct Person {
        id: isize,
        name: String,
        address: String,
    }

    fn mk_person(id: isize, name: &str, address: &str) -> Person {
        Person {
            id,
            name: name.to_string(),
            address: address.to_string(),
        }
    }

    fn build() -> SqliteResult<Database> {
        let mut database = Database::new(":memory:")?;
        database.exec("CREATE TABLE test (id int, name text, address text)")?;
        {
            let mut tx =
                database.prepare("INSERT INTO test (id, name, address) VALUES (?, ?, ?)")?;
            for who in [
                mk_person(1, "John Doe", "123 w Pine"),
                mk_person(2, "Jane Doe", "345 e Walnut"),
            ]
            .iter()
            {
                // ignore number of rows
                tx.execute(&[who.id.to_sql(), who.name.to_sql(), who.address.to_sql()])?;
            }
        }
        Ok(database)
    }

    fn show(database: &Database) -> SqliteResult<Vec<Person>> {
        let mut q: Cursor =
            database.prepare("select id, name as name, address as address from test")?;
        {
            // bind the (empty) parameter vector and reset execution
            let _rows = q.query(&[])?;
        }
        let mut persons: Vec<Person> = Vec::new();
        loop {
            match q.step() {
                Ok(ResultStep::SQLITE_DONE) => break,
                Ok(ResultStep::SQLITE_ROW) => persons.push(Person {
                    id: q.get(0usize),
                    name: q.get("name"),
                    address: q.get("address"),
                }),
                Err(err) => return Err(err),
            }
        }
        Ok(persons)
    }

    match build() {
        Ok(db) => match show(&db) {
            Ok(persons) => {
                assert_eq!(persons.len(), 2);
                assert_eq!(persons[0].id, 1);
                assert_eq!(persons[0].name, "John Doe");
                assert_eq!(persons[0].address, "123 w Pine");
                assert_eq!(persons[1].id, 2);
                assert_eq!(persons[1].name, "Jane Doe");
                assert_eq!(persons[1].address, "345 e Walnut");
            }
            Err(oops) => panic!("show() Err: {:?}", oops),
        },
        Err(oops) => panic!("build() Err: {:?}", oops),
    }
}

#[test]
fn bind_fun() {
    fn go() -> SqliteResult<()> {
        let mut database = Database::new(":memory:")?;

        database.exec(
            "BEGIN;
            CREATE TABLE test (id int, name text, address text);
            INSERT INTO test (id, name, address) VALUES (1, 'John Doe', '123 w Pine');
            COMMIT;",
        )?;

        let mut tx = database.prepare("INSERT INTO test (id, name, address) VALUES (?, ?, ?)")?;
        tx.bind_params(&[
            BindArg::Integer(2),
            BindArg::Text("Jane Doe".to_string()),
            BindArg::Text("345 e Walnut".to_string()),
        ])?;
        assert_eq!(tx.step(), Ok(ResultStep::SQLITE_DONE));
        assert_eq!(database.get_changes(), 1);

        let mut q = database.prepare("select * from test order by id")?;
        assert_eq!(q.step(), Ok(ResultStep::SQLITE_ROW));
        assert_eq!(q.get_int(0), Ok(1));
        let name = q.get_text(1)?;
        assert_eq!(name.as_str(), "John Doe");

        assert_eq!(q.step(), Ok(ResultStep::SQLITE_ROW));
        assert_eq!(q.get_int(0), Ok(2));
        let addr = q.get_text(2)?;
        assert_eq!(addr.as_str(), "345 e Walnut");
        Ok(())
    }
    match go() {
        Ok(_) => (),
        Err(e) => panic!("oops! {:?}", e),
    }
}
