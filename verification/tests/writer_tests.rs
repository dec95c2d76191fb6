use gcode::{
    GCodeError, GCodeOptions, GCodePosition, GCodeSink, GCodeWriter, StringSink, FIXED_SCALE,
};

/// The same float-to-fixed conversion the callers of the library perform at
/// its boundary.
fn fixed_of(val: f64) -> i64 {
    (val * (FIXED_SCALE as f64)) as i64
}

fn pos_full(x: f64, y: f64, z: f64) -> GCodePosition {
    GCodePosition::from_raw_full(fixed_of(x), fixed_of(y), fixed_of(z))
}

/// A destination whose writes and flushes always report failure.
struct FailSink;

impl GCodeSink for FailSink {
    fn write_str(&mut self, _s: &str) -> Result<(), GCodeError> {
        Err(GCodeError::IOError)
    }

    fn flush(&mut self) -> Result<(), GCodeError> {
        Err(GCodeError::IOError)
    }
}

#[test]
fn move_to() -> Result<(), GCodeError> {
    fn test(
        pos: GCodePosition,
        options: Option<GCodeOptions>,
        res: &str,
    ) -> Result<(), GCodeError> {
        let sink = StringSink::new();
        let mut gcw = GCodeWriter::new(sink)?;

        gcw.move_to(pos, options, false)?;
        let data = gcw.writer().into_string();

        assert_eq!(data, res);
        Ok(())
    }

    test(pos_full(1.0, 2.0, 3.0), None, "G01 X1.0000 Y2.0000 Z3.0000")?;
    test(
        pos_full(1.1, 2.2, 3.3),
        Some(GCodeOptions {
            feed_rate: Some(fixed_of(1200.0)),
        }),
        "G01 X1.1000 Y2.2000 Z3.3000 F1200.00",
    )?;
    test(
        GCodePosition::from_raw(Some(fixed_of(1.0)), None, Some(fixed_of(3.0))),
        None,
        "G01 X1.0000 Z3.0000",
    )?;

    Ok(())
}

#[test]
fn move_to_fast_uses_rapid_code() -> Result<(), GCodeError> {
    let sink = StringSink::new();
    let mut gcw = GCodeWriter::new(sink)?;
    gcw.move_to(pos_full(1.0, 2.0, 3.0), None, true)?;
    assert_eq!(gcw.writer().into_string(), "G00 X1.0000 Y2.0000 Z3.0000");
    Ok(())
}

#[test]
fn move_to_all_axes_absent_emits_code_alone() -> Result<(), GCodeError> {
    let sink = StringSink::new();
    let mut gcw = GCodeWriter::new(sink)?;
    gcw.move_to(GCodePosition::from_raw(None, None, None), None, false)?;
    assert_eq!(gcw.writer().into_string(), "G01");
    Ok(())
}

#[test]
fn move_to_negative_coordinates() -> Result<(), GCodeError> {
    let sink = StringSink::new();
    let mut gcw = GCodeWriter::new(sink)?;
    gcw.move_to(pos_full(-1.5, 0.0, -0.0001), None, false)?;
    assert_eq!(gcw.writer().into_string(), "G01 X-1.5000 Y0.0000 Z-0.0001");
    Ok(())
}

#[test]
fn move_to_consecutive_calls_concatenate() -> Result<(), GCodeError> {
    let sink = StringSink::new();
    let mut gcw = GCodeWriter::new(sink)?;
    gcw.move_to(GCodePosition::from_raw(Some(FIXED_SCALE), None, None), None, false)?;
    gcw.move_to(GCodePosition::from_raw(None, Some(2 * FIXED_SCALE), None), None, true)?;
    assert_eq!(gcw.writer().into_string(), "G01 X1.0000G00 Y2.0000");
    Ok(())
}

#[test]
fn flush_reports_io_failure() -> Result<(), GCodeError> {
    let mut gcw = GCodeWriter::new(FailSink)?;
    assert_eq!(gcw.flush(), Err(GCodeError::IOError));
    Ok(())
}

#[test]
fn move_to_reports_io_failure() -> Result<(), GCodeError> {
    let mut gcw = GCodeWriter::new(FailSink)?;
    assert_eq!(
        gcw.move_to(pos_full(1.0, 2.0, 3.0), None, false),
        Err(GCodeError::IOError)
    );
    Ok(())
}

#[test]
fn flush_succeeds_on_string_sink() -> Result<(), GCodeError> {
    let sink = StringSink::new();
    let mut gcw = GCodeWriter::new(sink)?;
    gcw.move_to(pos_full(1.0, 2.0, 3.0), None, false)?;
    assert_eq!(gcw.flush(), Ok(()));
    assert_eq!(gcw.writer().into_string(), "G01 X1.0000 Y2.0000 Z3.0000");
    Ok(())
}

#[test]
fn feed_rate_rounds_to_two_decimals() -> Result<(), GCodeError> {
    let sink = StringSink::new();
    let mut gcw = GCodeWriter::new(sink)?;
    gcw.move_to(
        GCodePosition::from_raw(Some(FIXED_SCALE), None, None),
        Some(GCodeOptions {
            feed_rate: Some(fixed_of(620.505)),
        }),
        false,
    )?;
    assert_eq!(gcw.writer().into_string(), "G01 X1.0000 F620.50");
    Ok(())
}
